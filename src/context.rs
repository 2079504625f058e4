use vstd::prelude::*;
use crate::device::{devices_view, family_counts_fit, pick_physical_device, selection_matches, DeviceSelection};
use crate::error::BootstrapError;
use crate::instance::{check_layers, plan_instance, plan_matches, InstancePlan};
use crate::names::{names_of, validation_layer_name};
use crate::version::{portability_needed, portability_required, Version};

verus! {

/// Where start-up stands: which native call the context waits on, or how it ended.
#[derive(Clone, Copy, Debug, PartialEq, Eq, Structural)]
pub enum Phase {
    ListingLayers,
    ReadingVersion,
    CreatingInstance,
    InstallingMessenger,
    ListingDevices,
    Ready,
    Failed,
    Destroyed,
}

/// The result of the native call the context asked for.
pub enum Event {
    /// The installed instance layers.
    LayersListed(Vec<String>),
    /// The runtime's version.
    VersionRead(Version),
    InstanceCreated,
    MessengerInstalled,
    /// The physical devices in enumeration order, each given by the flags of
    /// its queue families.
    DevicesListed(Vec<Vec<u32>>),
    /// The call failed with this native code.
    CallFailed(i32),
}

/// The native call to make next, or how start-up ended.
pub enum Action {
    ReadVersion,
    CreateInstance(InstancePlan),
    InstallMessenger,
    ListDevices,
    /// Device selection ran; start-up succeeded if a device was selected.
    Conclude(DeviceSelection),
    Abort(BootstrapError),
}

/// One native release call of teardown.
#[derive(Clone, Copy, Debug, PartialEq, Eq, Structural)]
pub enum Teardown {
    DestroyMessenger,
    DestroyInstance,
}

/// The application context: its configuration, the phase of start-up, which
/// native handles it owns, and the selected device.
pub struct Bootstrap {
    pub validation_enabled: bool,
    pub on_macos: bool,
    pub window_extensions: Vec<String>,
    pub phase: Phase,
    pub instance_live: bool,
    pub messenger_live: bool,
    pub selected: Option<usize>,
}

/// The release calls for the live handles: the messenger before the instance.
pub open spec fn teardown_order(messenger_live: bool, instance_live: bool) -> Seq<Teardown> {
    (if messenger_live {
        seq![Teardown::DestroyMessenger]
    } else {
        Seq::empty()
    }) + (if instance_live {
        seq![Teardown::DestroyInstance]
    } else {
        Seq::empty()
    })
}

/// The error for a failed native call in each phase that waits on one.
pub open spec fn failure_of(p: Phase, code: i32) -> BootstrapError {
    match p {
        Phase::CreatingInstance => BootstrapError::InstanceCreation(code),
        Phase::InstallingMessenger => BootstrapError::DebugMessengerCreation(code),
        _ => BootstrapError::RuntimeQuery(code),
    }
}

impl Bootstrap {
    pub open spec fn wf(&self) -> bool {
        &&& self.messenger_live ==> self.instance_live
        &&& self.messenger_live ==> self.validation_enabled
        &&& match self.phase {
            Phase::ListingLayers | Phase::CreatingInstance => !self.instance_live,
            Phase::ReadingVersion => !self.instance_live && self.on_macos,
            Phase::InstallingMessenger => self.instance_live && !self.messenger_live
                && self.validation_enabled,
            Phase::ListingDevices => self.instance_live && self.messenger_live
                == self.validation_enabled,
            Phase::Ready => self.instance_live && self.messenger_live == self.validation_enabled
                && self.selected is Some,
            Phase::Failed => true,
            Phase::Destroyed => !self.instance_live,
        }
    }

    /// The event answers the call this phase waits on.
    pub open spec fn accepts(&self, e: Event) -> bool {
        match (self.phase, e) {
            (Phase::ListingLayers, Event::LayersListed(_)) => true,
            (Phase::ReadingVersion, Event::VersionRead(_)) => true,
            (Phase::CreatingInstance, Event::InstanceCreated) => true,
            (Phase::InstallingMessenger, Event::MessengerInstalled) => true,
            (Phase::ListingDevices, Event::DevicesListed(d)) => family_counts_fit(devices_view(d@)),
            (Phase::ListingLayers, Event::CallFailed(_)) => true,
            (Phase::ReadingVersion, Event::CallFailed(_)) => true,
            (Phase::CreatingInstance, Event::CallFailed(_)) => true,
            (Phase::InstallingMessenger, Event::CallFailed(_)) => true,
            (Phase::ListingDevices, Event::CallFailed(_)) => true,
            _ => false,
        }
    }

    /// The instance-creation call that follows once the layers check out (and,
    /// on macOS, once the runtime version is known).
    pub open spec fn creates_instance(&self, a: Action, t: Bootstrap, portability: bool) -> bool {
        &&& a is CreateInstance
        &&& plan_matches(
            a->CreateInstance_0,
            self.validation_enabled,
            names_of(self.window_extensions@),
            portability,
        )
        &&& t.phase == Phase::CreatingInstance
    }

    /// `t` and `a` are the state and action after `self` takes the event `e`.
    pub open spec fn step_outcome(&self, e: Event, t: Bootstrap, a: Action) -> bool {
        &&& t.validation_enabled == self.validation_enabled
        &&& t.on_macos == self.on_macos
        &&& t.window_extensions == self.window_extensions
        &&& match e {
            Event::CallFailed(code) => a is Abort && a->Abort_0 == failure_of(self.phase, code)
                && t.phase == Phase::Failed && t.instance_live == self.instance_live
                && t.messenger_live == self.messenger_live && t.selected == self.selected,
            Event::LayersListed(layers) => t.instance_live == self.instance_live
                && t.messenger_live == self.messenger_live && t.selected == self.selected && if self.validation_enabled
                && !names_of(layers@).contains(validation_layer_name()) {
                a is Abort && a->Abort_0 == BootstrapError::MissingValidationLayer && t.phase
                    == Phase::Failed
            } else if self.on_macos {
                a is ReadVersion && t.phase == Phase::ReadingVersion
            } else {
                self.creates_instance(a, t, false)
            },
            Event::VersionRead(v) => t.instance_live == self.instance_live && t.messenger_live
                == self.messenger_live && t.selected == self.selected && self.creates_instance(
                a,
                t,
                portability_needed(self.on_macos, v),
            ),
            Event::InstanceCreated => t.instance_live && t.messenger_live == self.messenger_live
                && t.selected == self.selected && if self.validation_enabled {
                a is InstallMessenger && t.phase == Phase::InstallingMessenger
            } else {
                a is ListDevices && t.phase == Phase::ListingDevices
            },
            Event::MessengerInstalled => t.instance_live == self.instance_live && t.messenger_live
                && t.selected == self.selected && a is ListDevices && t.phase
                == Phase::ListingDevices,
            Event::DevicesListed(devices) => t.instance_live == self.instance_live
                && t.messenger_live == self.messenger_live && a is Conclude && selection_matches(
                a->Conclude_0,
                devices_view(devices@),
            ) && t.selected == a->Conclude_0.selected && t.phase == if t.selected is Some {
                Phase::Ready
            } else {
                Phase::Failed
            },
        }
    }

    /// A context about to start up; the first native call is always the
    /// listing of the installed layers.
    pub fn begin(validation_enabled: bool, on_macos: bool, window_extensions: Vec<String>) -> (r:
        Bootstrap)
        ensures
            r.wf(),
            r.phase == Phase::ListingLayers,
            r.validation_enabled == validation_enabled,
            r.on_macos == on_macos,
            r.window_extensions@ == window_extensions@,
            !r.instance_live,
            !r.messenger_live,
            r.selected is None,
    {
        Bootstrap {
            validation_enabled,
            on_macos,
            window_extensions,
            phase: Phase::ListingLayers,
            instance_live: false,
            messenger_live: false,
            selected: None,
        }
    }

    /// Whether the event answers the call this phase waits on.
    pub fn can_take(&self, e: &Event) -> (r: bool)
        ensures
            r == self.accepts(*e),
    {
        match (self.phase, e) {
            (Phase::ListingLayers, Event::LayersListed(_)) => true,
            (Phase::ReadingVersion, Event::VersionRead(_)) => true,
            (Phase::CreatingInstance, Event::InstanceCreated) => true,
            (Phase::InstallingMessenger, Event::MessengerInstalled) => true,
            (Phase::ListingDevices, Event::DevicesListed(d)) => counts_fit(d),
            (Phase::ListingLayers, Event::CallFailed(_)) => true,
            (Phase::ReadingVersion, Event::CallFailed(_)) => true,
            (Phase::CreatingInstance, Event::CallFailed(_)) => true,
            (Phase::InstallingMessenger, Event::CallFailed(_)) => true,
            (Phase::ListingDevices, Event::CallFailed(_)) => true,
            _ => false,
        }
    }

    /// Takes the result of the native call asked for and decides the next one.
    pub fn step(&mut self, e: Event) -> (a: Action)
        requires
            old(self).wf(),
            old(self).accepts(e),
        ensures
            final(self).wf(),
            old(self).step_outcome(e, *final(self), a),
    {
        match e {
            Event::CallFailed(code) => {
                let err = match self.phase {
                    Phase::CreatingInstance => BootstrapError::InstanceCreation(code),
                    Phase::InstallingMessenger => BootstrapError::DebugMessengerCreation(code),
                    _ => BootstrapError::RuntimeQuery(code),
                };
                self.phase = Phase::Failed;
                Action::Abort(err)
            },
            Event::LayersListed(layers) => {
                match check_layers(self.validation_enabled, &layers) {
                    Err(err) => {
                        self.phase = Phase::Failed;
                        Action::Abort(err)
                    },
                    Ok(()) => {
                        if self.on_macos {
                            self.phase = Phase::ReadingVersion;
                            Action::ReadVersion
                        } else {
                            let plan = plan_instance(self.validation_enabled, &self.window_extensions, false);
                            self.phase = Phase::CreatingInstance;
                            Action::CreateInstance(plan)
                        }
                    },
                }
            },
            Event::VersionRead(v) => {
                let portability = portability_required(self.on_macos, &v);
                let plan = plan_instance(self.validation_enabled, &self.window_extensions, portability);
                self.phase = Phase::CreatingInstance;
                Action::CreateInstance(plan)
            },
            Event::InstanceCreated => {
                self.instance_live = true;
                if self.validation_enabled {
                    self.phase = Phase::InstallingMessenger;
                    Action::InstallMessenger
                } else {
                    self.phase = Phase::ListingDevices;
                    Action::ListDevices
                }
            },
            Event::MessengerInstalled => {
                self.messenger_live = true;
                self.phase = Phase::ListingDevices;
                Action::ListDevices
            },
            Event::DevicesListed(devices) => {
                let selection = pick_physical_device(&devices);
                self.selected = selection.selected;
                self.phase = match selection.selected {
                    Some(_) => Phase::Ready,
                    None => Phase::Failed,
                };
                Action::Conclude(selection)
            },
        }
    }

    /// The per-frame hook: there is no frame work yet, so it always succeeds.
    pub fn render(&self) -> (r: Result<(), BootstrapError>)
        requires
            self.phase == Phase::Ready,
        ensures
            r is Ok,
    {
        Ok(())
    }

    /// Releases the live handles, the messenger before the instance; returns the
    /// release calls to make, in order.
    pub fn destroy(&mut self) -> (r: Vec<Teardown>)
        requires
            old(self).wf(),
            old(self).phase == Phase::Ready || old(self).phase == Phase::Failed,
        ensures
            final(self).wf(),
            r@ == teardown_order(old(self).messenger_live, old(self).instance_live),
            final(self).phase == Phase::Destroyed,
            !final(self).instance_live,
            !final(self).messenger_live,
            final(self).validation_enabled == old(self).validation_enabled,
    {
        let mut r: Vec<Teardown> = Vec::new();
        if self.messenger_live {
            r.push(Teardown::DestroyMessenger);
        }
        if self.instance_live {
            r.push(Teardown::DestroyInstance);
        }
        assert(r@ =~= teardown_order(self.messenger_live, self.instance_live));
        self.messenger_live = false;
        self.instance_live = false;
        self.phase = Phase::Destroyed;
        r
    }
}

/// Whether no device of the list has more queue families than a `u32` counts.
fn counts_fit(devices: &Vec<Vec<u32>>) -> (r: bool)
    ensures
        r == family_counts_fit(devices_view(devices@)),
{
    let mut i: usize = 0;
    while i < devices.len()
        invariant
            i <= devices.len(),
            forall|k: int| 0 <= k < i ==> (#[trigger] devices_view(devices@)[k]).len() <= u32::MAX,
        decreases devices.len() - i,
    {
        if devices[i].len() > u32::MAX as usize {
            assert(devices_view(devices@)[i as int] == devices@[i as int]@);
            return false;
        }
        i = i + 1;
    }
    true
}

/// With validation disabled, no step asks for the debug messenger, no messenger
/// ever becomes live, and the instance is planned with no layers, whatever
/// layers the runtime reports.
pub proof fn lemma_no_debug_bridge_without_validation(s: Bootstrap, e: Event, t: Bootstrap, a: Action)
    requires
        s.wf(),
        !s.validation_enabled,
        s.accepts(e),
        s.step_outcome(e, t, a),
    ensures
        !(a is InstallMessenger),
        !t.messenger_live,
        !t.validation_enabled,
        a is CreateInstance ==> names_of(a->CreateInstance_0.layers@) == Seq::<Seq<char>>::empty(),
        a is CreateInstance ==> !a->CreateInstance_0.chain_debug_info,
{
}

/// With validation enabled and the validation layer missing from the listed
/// layers, start-up fails with the missing-layer error before any instance is
/// created: no instance is live, and the failed context takes no further event.
pub proof fn lemma_missing_layer_stops_before_instance(
    s: Bootstrap,
    layers: Vec<String>,
    t: Bootstrap,
    a: Action,
)
    requires
        s.wf(),
        s.phase == Phase::ListingLayers,
        s.validation_enabled,
        !names_of(layers@).contains(validation_layer_name()),
        s.step_outcome(Event::LayersListed(layers), t, a),
    ensures
        a is Abort,
        a->Abort_0 == BootstrapError::MissingValidationLayer,
        !t.instance_live,
        forall|e: Event| !t.accepts(e),
{
}

/// After a successful start-up, teardown releases the debug messenger, when
/// one was created, strictly before the instance, and the instance last.
pub proof fn lemma_messenger_released_before_instance(s: Bootstrap)
    requires
        s.wf(),
        s.phase == Phase::Ready,
    ensures
        teardown_order(s.messenger_live, s.instance_live).last() == Teardown::DestroyInstance,
        s.messenger_live ==> teardown_order(s.messenger_live, s.instance_live) == seq![
            Teardown::DestroyMessenger,
            Teardown::DestroyInstance,
        ],
        !s.messenger_live ==> teardown_order(s.messenger_live, s.instance_live) == seq![
            Teardown::DestroyInstance,
        ],
        s.messenger_live == s.validation_enabled,
{
    assert(teardown_order(s.messenger_live, s.instance_live) =~= if s.messenger_live {
        seq![Teardown::DestroyMessenger, Teardown::DestroyInstance]
    } else {
        seq![Teardown::DestroyInstance]
    });
}

} // verus!
