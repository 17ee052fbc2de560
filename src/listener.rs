//! The trigger-key listener: which raw keyboard events count as a press or a
//! release of the trigger, and the process-wide registry that admits one
//! installed hook at a time.
use vstd::prelude::*;
use crate::platform::PlatformKind;
use crate::trigger::KeyEdge;

verus! {

/// Quartz event type of a change of modifier flags.
pub const EVENT_FLAGS_CHANGED: u32 = 12;

/// Quartz modifier flag of the Fn key.
pub const FN_MODIFIER_MASK: u64 = 0x80_0000;

/// Hook code under which a low-level keyboard hook must process the event.
pub const HOOK_ACTION: i32 = 0;

pub const MSG_KEY_DOWN: u32 = 0x100;

pub const MSG_KEY_UP: u32 = 0x101;

pub const MSG_SYS_KEY_DOWN: u32 = 0x104;

pub const MSG_SYS_KEY_UP: u32 = 0x105;

/// Virtual-key code of Right Alt.
pub const VK_RIGHT_ALT: u32 = 0xA5;

/// Virtual-key code of F24.
pub const VK_F24: u32 = 0x87;

/// The key that counts as the trigger.
#[derive(Clone, Copy, Debug, PartialEq, Eq, Structural)]
pub enum TriggerKeySpec {
    /// A modifier flag, read from events of the given type.
    ModifierFlag { event_type: u32, mask: u64 },
    /// Either of two virtual-key codes.
    VirtualKeys { primary: u32, alternate: u32 },
}

/// A keyboard event as the native hook hands it over.
#[derive(Clone, Copy, Debug, PartialEq, Eq, Structural)]
pub enum RawKeyEvent {
    /// An event-tap event: its type and its modifier flags.
    Tap { event_type: u32, flags: u64 },
    /// A low-level hook call: the hook code, the virtual-key code and the message.
    Hook { code: i32, vk: u32, message: u32 },
}

/// The trigger key of each platform.
pub open spec fn trigger_key_of(platform: PlatformKind) -> Option<TriggerKeySpec> {
    match platform {
        PlatformKind::MacOS => Some(
            TriggerKeySpec::ModifierFlag { event_type: EVENT_FLAGS_CHANGED, mask: FN_MODIFIER_MASK },
        ),
        PlatformKind::Windows => Some(
            TriggerKeySpec::VirtualKeys { primary: VK_RIGHT_ALT, alternate: VK_F24 },
        ),
        PlatformKind::Unsupported => None,
    }
}

pub fn trigger_key(platform: PlatformKind) -> (r: Option<TriggerKeySpec>)
    ensures
        r == trigger_key_of(platform),
{
    match platform {
        PlatformKind::MacOS => Some(
            TriggerKeySpec::ModifierFlag { event_type: EVENT_FLAGS_CHANGED, mask: FN_MODIFIER_MASK },
        ),
        PlatformKind::Windows => Some(
            TriggerKeySpec::VirtualKeys { primary: VK_RIGHT_ALT, alternate: VK_F24 },
        ),
        PlatformKind::Unsupported => None,
    }
}

/// The state of the trigger key that an event reports: `Some(true)` when it
/// is down, `Some(false)` when it is up, `None` when the event says nothing of
/// the trigger key.
pub open spec fn key_state_spec(key: TriggerKeySpec, event: RawKeyEvent) -> Option<bool> {
    match (key, event) {
        (
            TriggerKeySpec::ModifierFlag { event_type, mask },
            RawKeyEvent::Tap { event_type: t, flags },
        ) => if t == event_type {
            Some(flags & mask != 0)
        } else {
            None
        },
        (
            TriggerKeySpec::VirtualKeys { primary, alternate },
            RawKeyEvent::Hook { code, vk, message },
        ) => if code == HOOK_ACTION && (vk == primary || vk == alternate) {
            if message == MSG_KEY_DOWN || message == MSG_SYS_KEY_DOWN {
                Some(true)
            } else if message == MSG_KEY_UP || message == MSG_SYS_KEY_UP {
                Some(false)
            } else {
                None
            }
        } else {
            None
        },
        _ => None,
    }
}

/// Reads the trigger key's state from a raw event, in constant time and
/// without allocating: it runs on the thread that services all input.
pub fn key_state(key: TriggerKeySpec, event: RawKeyEvent) -> (r: Option<bool>)
    ensures
        r == key_state_spec(key, event),
{
    match (key, event) {
        (
            TriggerKeySpec::ModifierFlag { event_type, mask },
            RawKeyEvent::Tap { event_type: t, flags },
        ) => {
            if t == event_type {
                Some(flags & mask != 0)
            } else {
                None
            }
        },
        (
            TriggerKeySpec::VirtualKeys { primary, alternate },
            RawKeyEvent::Hook { code, vk, message },
        ) => {
            if code == HOOK_ACTION && (vk == primary || vk == alternate) {
                if message == MSG_KEY_DOWN || message == MSG_SYS_KEY_DOWN {
                    Some(true)
                } else if message == MSG_KEY_UP || message == MSG_SYS_KEY_UP {
                    Some(false)
                } else {
                    None
                }
            } else {
                None
            }
        },
        _ => None,
    }
}

/// The edge that moving the trigger key into state `down` is.
pub open spec fn edge_into(down: bool) -> KeyEdge {
    if down {
        KeyEdge::Pressed
    } else {
        KeyEdge::Released
    }
}

/// The state of the process-wide listener slot.
#[derive(Clone, Copy, Debug, PartialEq, Eq, Structural)]
pub enum RegistrySlot {
    /// No hook is installed.
    Free,
    /// Listener `id` is installing its hook for `key`.
    Installing { id: u64, key: TriggerKeySpec },
    /// Listener `id` has its hook installed and receives events for `key`,
    /// whose last known state is `down`.
    Active { id: u64, key: TriggerKeySpec, down: bool },
}

/// The listener that holds the slot, if any.
pub open spec fn holder(slot: RegistrySlot) -> Option<u64> {
    match slot {
        RegistrySlot::Free => None,
        RegistrySlot::Installing { id, .. } => Some(id),
        RegistrySlot::Active { id, .. } => Some(id),
    }
}

/// The slot after listener `id` stops: released if `id` holds it, else as it was.
pub open spec fn after_stop(slot: RegistrySlot, id: u64) -> RegistrySlot {
    if holder(slot) == Some(id) {
        RegistrySlot::Free
    } else {
        slot
    }
}

/// The slot after the hook thread of listener `id` reported its installation.
pub open spec fn after_install(slot: RegistrySlot, id: u64, installed: bool) -> RegistrySlot {
    match slot {
        RegistrySlot::Installing { id: holder_id, key } => if holder_id == id {
            if installed {
                RegistrySlot::Active { id, key, down: false }
            } else {
                RegistrySlot::Free
            }
        } else {
            slot
        },
        _ => slot,
    }
}

/// Whether a new listener for `platform` is admitted in this state of the slot.
pub open spec fn install_admitted(slot: RegistrySlot, platform: PlatformKind) -> bool {
    platform != PlatformKind::Unsupported && slot == RegistrySlot::Free
}

/// Whether the trigger reports its own key events (a key down, repeated while
/// the key is held, and a key up), as opposed to a modifier flag carried by
/// events of any modifier.
pub open spec fn reports_key_events(key: TriggerKeySpec) -> bool {
    key is VirtualKeys
}

/// Where events go: to the active listener, as an edge. A virtual-key trigger
/// delivers every key down and key up of the trigger key, repeats included; a
/// modifier-flag trigger delivers only changes of the flag, since the same
/// event type also reports every other modifier. Nothing goes anywhere while
/// no listener is active.
pub open spec fn route_spec(slot: RegistrySlot, event: RawKeyEvent) -> Option<KeyEdge> {
    match slot {
        RegistrySlot::Active { key, down, .. } => match key_state_spec(key, event) {
            Some(now) => if reports_key_events(key) || now != down {
                Some(edge_into(now))
            } else {
                None
            },
            None => None,
        },
        _ => None,
    }
}

/// The slot after an event: an active listener remembers the state it reports.
pub open spec fn after_route(slot: RegistrySlot, event: RawKeyEvent) -> RegistrySlot {
    match slot {
        RegistrySlot::Active { id, key, down } => match key_state_spec(key, event) {
            Some(now) => RegistrySlot::Active { id, key, down: now },
            None => slot,
        },
        _ => slot,
    }
}

/// The edges that a series of events delivers to the listener, in order.
pub open spec fn route_all(slot: RegistrySlot, events: Seq<RawKeyEvent>) -> Seq<KeyEdge>
    decreases events.len(),
{
    if events.len() == 0 {
        Seq::empty()
    } else {
        let first = match route_spec(slot, events[0]) {
            Some(e) => seq![e],
            None => Seq::empty(),
        };
        first + route_all(after_route(slot, events[0]), events.drop_first())
    }
}

/// Edges that alternate, the first one leaving state `down`.
pub open spec fn alternating_from(edges: Seq<KeyEdge>, down: bool) -> bool {
    forall|i: int| 0 <= i < edges.len() ==> #[trigger] edges[i] == edge_into((i % 2 == 0) != down)
}

/// Why a listener could not be installed.
#[derive(Clone, Debug)]
pub enum ListenerError {
    /// The platform has no key listener.
    Unsupported,
    /// Another listener holds the process-wide slot.
    AlreadyActive,
    /// This listener does not hold the slot.
    NotInstalling,
    /// The native hook could not be installed; the text says what to do.
    InstallFailed(String),
}

pub open spec fn listener_error_text(e: ListenerError) -> Seq<char> {
    match e {
        ListenerError::Unsupported => "Fn key listening is not supported on this platform"@,
        ListenerError::AlreadyActive => "Fn key listener already active"@,
        ListenerError::NotInstalling => "Fn key listener is not being installed"@,
        ListenerError::InstallFailed(m) => m@,
    }
}

impl ListenerError {
    pub fn message(&self) -> (r: String)
        ensures
            r@ == listener_error_text(*self),
    {
        match self {
            ListenerError::Unsupported => String::from_str(
                "Fn key listening is not supported on this platform",
            ),
            ListenerError::AlreadyActive => String::from_str("Fn key listener already active"),
            ListenerError::NotInstalling => String::from_str(
                "Fn key listener is not being installed",
            ),
            ListenerError::InstallFailed(m) => m.clone(),
        }
    }
}

/// The process-wide slot for the one native keyboard hook.
pub struct ListenerRegistry {
    slot: RegistrySlot,
    next_id: u64,
}

impl View for ListenerRegistry {
    type V = RegistrySlot;

    closed spec fn view(&self) -> RegistrySlot {
        self.slot
    }
}

impl ListenerRegistry {
    pub fn new() -> (r: ListenerRegistry)
        ensures
            r@ == RegistrySlot::Free,
    {
        ListenerRegistry { slot: RegistrySlot::Free, next_id: 0 }
    }

    pub fn slot(&self) -> (r: RegistrySlot)
        ensures
            r == self@,
    {
        self.slot
    }

    /// Where the hook sends an event: the trigger edge it is, when a listener
    /// is active and the event changes the trigger key's state.
    pub fn route(&mut self, event: RawKeyEvent) -> (r: Option<KeyEdge>)
        ensures
            r == route_spec(old(self)@, event),
            final(self)@ == after_route(old(self)@, event),
    {
        match self.slot {
            RegistrySlot::Active { id, key, down } => match key_state(key, event) {
                Some(now) => {
                    self.slot = RegistrySlot::Active { id, key, down: now };
                    let every_event = match key {
                        TriggerKeySpec::VirtualKeys { .. } => true,
                        TriggerKeySpec::ModifierFlag { .. } => false,
                    };
                    if every_event || now != down {
                        Some(if now {
                            KeyEdge::Pressed
                        } else {
                            KeyEdge::Released
                        })
                    } else {
                        None
                    }
                },
                None => None,
            },
            _ => None,
        }
    }
}

/// A handle on the installed trigger-key listener.
#[derive(Debug)]
pub struct FnKeyListener {
    id: u64,
}

impl FnKeyListener {
    pub closed spec fn spec_id(&self) -> u64 {
        self.id
    }

    /// Claims the process-wide slot for a new listener of the platform's
    /// trigger key. The hook is then installed on its own thread, which reports
    /// back through `installed`.
    pub fn new(registry: &mut ListenerRegistry, platform: PlatformKind) -> (r: Result<
        FnKeyListener,
        ListenerError,
    >)
        ensures
            platform == PlatformKind::Unsupported ==> r matches Err(ListenerError::Unsupported),
            platform != PlatformKind::Unsupported && old(registry)@ != RegistrySlot::Free ==> r matches Err(
                ListenerError::AlreadyActive,
            ),
            r is Err ==> final(registry)@ == old(registry)@,
            r is Ok <==> install_admitted(old(registry)@, platform),
            r is Ok ==> final(registry)@ == (RegistrySlot::Installing {
                id: r->Ok_0.spec_id(),
                key: trigger_key_of(platform)->Some_0,
            }),
    {
        let key = match trigger_key(platform) {
            None => {
                return Err(ListenerError::Unsupported);
            },
            Some(k) => k,
        };
        if let RegistrySlot::Free = registry.slot {
            let id = registry.next_id;
            registry.next_id = if id == u64::MAX {
                0
            } else {
                id + 1
            };
            registry.slot = RegistrySlot::Installing { id, key };
            Ok(FnKeyListener { id })
        } else {
            Err(ListenerError::AlreadyActive)
        }
    }

    /// Records the hook thread's report. On success the listener becomes
    /// active; on failure the slot is released and the failure returned.
    pub fn installed(&self, registry: &mut ListenerRegistry, outcome: Result<(), String>) -> (r:
        Result<(), ListenerError>)
        ensures
            final(registry)@ == after_install(old(registry)@, self.spec_id(), outcome is Ok),
            !(old(registry)@ matches RegistrySlot::Installing { id, .. } && id == self.spec_id())
                ==> r matches Err(ListenerError::NotInstalling),
            old(registry)@ matches RegistrySlot::Installing { id, .. } && id == self.spec_id() ==> (
            match outcome {
                Ok(_) => r is Ok,
                Err(m) => r matches Err(ListenerError::InstallFailed(e)) && e@ == m@,
            }),
    {
        match registry.slot {
            RegistrySlot::Installing { id, key } => {
                if id != self.id {
                    return Err(ListenerError::NotInstalling);
                }
                match outcome {
                    Ok(()) => {
                        registry.slot = RegistrySlot::Active { id, key, down: false };
                        Ok(())
                    },
                    Err(m) => {
                        registry.slot = RegistrySlot::Free;
                        Err(ListenerError::InstallFailed(m))
                    },
                }
            },
            _ => Err(ListenerError::NotInstalling),
        }
    }

    /// Stops listening: the slot is released when this listener holds it, so a
    /// new listener may be installed afterwards.
    pub fn stop(&self, registry: &mut ListenerRegistry)
        ensures
            final(registry)@ == after_stop(old(registry)@, self.spec_id()),
    {
        let holds = match registry.slot {
            RegistrySlot::Free => false,
            RegistrySlot::Installing { id, .. } => id == self.id,
            RegistrySlot::Active { id, .. } => id == self.id,
        };
        if holds {
            registry.slot = RegistrySlot::Free;
        }
    }
}

/// Once the listener holding the slot stops, a new listener (with a new
/// callback) is admitted on any supported platform; stopping a listener that
/// does not hold the slot changes nothing.
pub proof fn lemma_stop_then_start(slot: RegistrySlot, id: u64, platform: PlatformKind)
    requires
        platform != PlatformKind::Unsupported,
    ensures
        holder(slot) == Some(id) ==> install_admitted(after_stop(slot, id), platform),
        holder(slot) != Some(id) ==> after_stop(slot, id) == slot,
{
}

/// An active modifier-flag listener delivers only changes of the trigger's
/// state: the edges alternate between press and release, starting from its
/// last known state (up, right after installation), whatever other modifier
/// events come between.
pub proof fn lemma_route_reports_transitions(slot: RegistrySlot, events: Seq<RawKeyEvent>)
    requires
        slot is Active,
        !reports_key_events(slot->Active_key),
    ensures
        alternating_from(route_all(slot, events), slot->Active_down),
    decreases events.len(),
{
    if events.len() > 0 {
        let e = events[0];
        let next = after_route(slot, e);
        lemma_route_reports_transitions(next, events.drop_first());
        let rest = route_all(next, events.drop_first());
        let all = route_all(slot, events);
        let down = slot->Active_down;
        match route_spec(slot, e) {
            Some(edge) => {
                assert(next->Active_down == !down);
                assert(all == seq![edge] + rest);
                assert forall|i: int| 0 <= i < all.len() implies #[trigger] all[i] == edge_into(
                    (i % 2 == 0) != down,
                ) by {
                    if i > 0 {
                        assert(all[i] == rest[i - 1]);
                        assert(((i - 1) % 2 == 0) != !down <==> ((i % 2 == 0) != down));
                    }
                }
            },
            None => {
                assert(next->Active_down == down);
                assert(all == Seq::<KeyEdge>::empty() + rest);
                assert(all == rest);
            },
        }
    }
}

/// An active virtual-key listener delivers one edge for every key down and
/// key up of the trigger key, repeats included, and none for other events.
pub proof fn lemma_route_reports_every_key_event(slot: RegistrySlot, event: RawKeyEvent)
    requires
        slot is Active,
        reports_key_events(slot->Active_key),
    ensures
        route_spec(slot, event) == match key_state_spec(slot->Active_key, event) {
            Some(now) => Some(edge_into(now)),
            None => None,
        },
{
}

} // verus!
