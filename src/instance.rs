use vstd::prelude::*;
use crate::error::BootstrapError;
use crate::names::{
    contains_name, debug_utils_extension, debug_utils_name, names_of, portability_enumeration_extension,
    portability_enumeration_name, properties2_extension, properties2_name, validation_layer,
    validation_layer_name,
};
use crate::version::{packed_version, Version};

verus! {

/// The metadata an instance is created with. Versions are in packed form.
pub struct ApplicationMetadata {
    pub name: String,
    pub app_version: u32,
    pub engine_name: String,
    pub engine_version: u32,
    pub api_version: u32,
}

/// The version 1.0.0 in packed form.
pub open spec fn packed_1_0_0() -> u32 {
    4194304
}

impl ApplicationMetadata {
    /// The metadata this application reports: its name, no engine, and 1.0.0
    /// for every version.
    pub fn for_application() -> (r: ApplicationMetadata)
        ensures
            r.name@ == "Vulkan Tutorial"@,
            r.engine_name@ == "No Engine"@,
            r.app_version == packed_1_0_0(),
            r.engine_version == packed_1_0_0(),
            r.api_version == packed_1_0_0(),
    {
        let v = Version::new(1, 0, 0);
        ApplicationMetadata {
            name: "Vulkan Tutorial".to_owned(),
            app_version: packed_version(&v),
            engine_name: "No Engine".to_owned(),
            engine_version: packed_version(&v),
            api_version: packed_version(&v),
        }
    }
}

/// Everything the native instance-creation call is handed besides the metadata.
pub struct InstancePlan {
    /// The layers to enable, in order.
    pub layers: Vec<String>,
    /// The extensions to enable, in order and without repeats.
    pub extensions: Vec<String>,
    /// Whether the portability-enumeration creation flag is set.
    pub portability: bool,
    /// Whether the debug-messenger create info is chained into the instance
    /// create info, so that diagnostics of instance creation itself are caught.
    pub chain_debug_info: bool,
}

/// `s` with `n` appended, unless `n` is already in it.
pub open spec fn with_name(s: Seq<Seq<char>>, n: Seq<char>) -> Seq<Seq<char>> {
    if s.contains(n) {
        s
    } else {
        s.push(n)
    }
}

/// `s` with later repeats of a name left out.
pub open spec fn without_repeats(s: Seq<Seq<char>>) -> Seq<Seq<char>>
    decreases s.len(),
{
    if s.len() == 0 {
        Seq::empty()
    } else {
        with_name(without_repeats(s.drop_last()), s.last())
    }
}

/// The layers an instance is created with.
pub open spec fn planned_layers(validation: bool) -> Seq<Seq<char>> {
    if validation {
        seq![validation_layer_name()]
    } else {
        Seq::empty()
    }
}

/// The extensions an instance is created with: the window system's, then the
/// debug-utils extension under validation, then the two portability extensions
/// where they are needed; a name that is already present is not added again.
pub open spec fn planned_extensions(
    window: Seq<Seq<char>>,
    validation: bool,
    portability: bool,
) -> Seq<Seq<char>> {
    let base = without_repeats(window);
    let with_debug = if validation {
        with_name(base, debug_utils_name())
    } else {
        base
    };
    if portability {
        with_name(with_name(with_debug, properties2_name()), portability_enumeration_name())
    } else {
        with_debug
    }
}

/// `p` is the plan for these inputs.
pub open spec fn plan_matches(
    p: InstancePlan,
    validation: bool,
    window: Seq<Seq<char>>,
    portability: bool,
) -> bool {
    &&& names_of(p.layers@) == planned_layers(validation)
    &&& names_of(p.extensions@) == planned_extensions(window, validation, portability)
    &&& p.portability == portability
    &&& p.chain_debug_info == validation
}

proof fn lemma_with_name_no_repeats(s: Seq<Seq<char>>, n: Seq<char>)
    requires
        s.no_duplicates(),
    ensures
        with_name(s, n).no_duplicates(),
{
}

proof fn lemma_without_repeats_no_repeats(s: Seq<Seq<char>>)
    ensures
        without_repeats(s).no_duplicates(),
    decreases s.len(),
{
    if s.len() > 0 {
        lemma_without_repeats_no_repeats(s.drop_last());
        lemma_with_name_no_repeats(without_repeats(s.drop_last()), s.last());
    }
}

/// Every extension list that is planned names each extension once.
pub proof fn lemma_planned_extensions_unique(window: Seq<Seq<char>>, validation: bool, portability: bool)
    ensures
        planned_extensions(window, validation, portability).no_duplicates(),
{
    let base = without_repeats(window);
    lemma_without_repeats_no_repeats(window);
    lemma_with_name_no_repeats(base, debug_utils_name());
    let with_debug = if validation {
        with_name(base, debug_utils_name())
    } else {
        base
    };
    lemma_with_name_no_repeats(with_debug, properties2_name());
    lemma_with_name_no_repeats(with_name(with_debug, properties2_name()), portability_enumeration_name());
}

/// Appends `name` to `list` unless it is already there.
fn push_name(list: &mut Vec<String>, name: String)
    ensures
        names_of(final(list)@) == with_name(names_of(old(list)@), name@),
{
    if !contains_name(list, &name) {
        let ghost before = names_of(list@);
        list.push(name);
        assert(names_of(list@) =~= before.push(name@));
    }
}

/// Checks that the validation layer is installed whenever validation is asked for.
pub fn check_layers(validation_enabled: bool, available_layers: &Vec<String>) -> (r: Result<
    (),
    BootstrapError,
>)
    ensures
        r is Ok <==> (!validation_enabled || names_of(available_layers@).contains(
            validation_layer_name(),
        )),
        r is Err ==> r == Err::<(), BootstrapError>(BootstrapError::MissingValidationLayer),
{
    if validation_enabled && !contains_name(available_layers, &validation_layer()) {
        Err(BootstrapError::MissingValidationLayer)
    } else {
        Ok(())
    }
}

/// Composes the layers, extensions and flags of instance creation.
pub fn plan_instance(
    validation_enabled: bool,
    window_extensions: &Vec<String>,
    portability: bool,
) -> (r: InstancePlan)
    ensures
        plan_matches(r, validation_enabled, names_of(window_extensions@), portability),
        names_of(r.extensions@).no_duplicates(),
{
    let mut layers: Vec<String> = Vec::new();
    if validation_enabled {
        layers.push(validation_layer());
        assert(names_of(layers@) =~= seq![validation_layer_name()]);
    } else {
        assert(names_of(layers@) =~= Seq::empty());
    }
    let ghost window = names_of(window_extensions@);
    let mut extensions: Vec<String> = Vec::new();
    let mut i: usize = 0;
    while i < window_extensions.len()
        invariant
            i <= window_extensions.len(),
            window == names_of(window_extensions@),
            names_of(extensions@) == without_repeats(window.subrange(0, i as int)),
        decreases window_extensions.len() - i,
    {
        assert(window.subrange(0, i + 1).drop_last() =~= window.subrange(0, i as int));
        push_name(&mut extensions, window_extensions[i].clone());
        i = i + 1;
    }
    assert(window.subrange(0, i as int) =~= window);
    if validation_enabled {
        push_name(&mut extensions, debug_utils_extension());
    }
    if portability {
        push_name(&mut extensions, properties2_extension());
        push_name(&mut extensions, portability_enumeration_extension());
    }
    proof {
        lemma_planned_extensions_unique(window, validation_enabled, portability);
    }
    InstancePlan { layers, extensions, portability, chain_debug_info: validation_enabled }
}

} // verus!
