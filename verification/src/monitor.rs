//! The monitors that are known, and which of them a window asks for.

use vstd::prelude::*;

verus! {

/// Which monitor is meant.
#[derive(Clone, Copy, Debug, PartialEq, Eq, Structural)]
pub enum MonitorSelection {
    /// The monitor that the window is on now.
    Current,
    /// The primary monitor of the system.
    Primary,
    /// The monitor at this place in the list of monitors.
    Index(usize),
    /// The monitor that belongs to the entity with these bits.
    Entity(u64),
}

/// How a window takes the screen.
#[derive(Clone, Copy, Debug, PartialEq, Eq, Structural)]
pub enum WindowMode {
    /// An ordinary window with a size and a position.
    Windowed,
    /// Fullscreen without a change of video mode.
    BorderlessFullscreen(MonitorSelection),
    /// Exclusive fullscreen in the video mode closest to the window's size.
    SizedFullscreen(MonitorSelection),
    /// Exclusive fullscreen in the best video mode of the monitor.
    Fullscreen(MonitorSelection),
}

/// The monitors that are known, each with the bits of its entity, in the order
/// in which they were added. `M` is the handle of a monitor.
#[derive(Debug)]
pub struct WinitMonitors<M> {
    monitors: Vec<(M, u64)>,
}

impl<M> View for WinitMonitors<M> {
    type V = Seq<(M, u64)>;

    closed spec fn view(&self) -> Seq<(M, u64)> {
        self.monitors@
    }
}

/// What a borrowed handle, if there is one, refers to.
pub open spec fn pointee<M>(handle: Option<&M>) -> Option<M> {
    match handle {
        Some(monitor) => Some(*monitor),
        None => None,
    }
}

/// The first monitor at or after `start` that belongs to `entity`.
pub open spec fn monitor_of_entity_from<M>(monitors: Seq<(M, u64)>, entity: u64, start: int) -> Option<M>
    decreases monitors.len() - start,
{
    if start < 0 || start >= monitors.len() {
        None
    } else if monitors[start].1 == entity {
        Some(monitors[start].0)
    } else {
        monitor_of_entity_from(monitors, entity, start + 1)
    }
}

/// The first monitor in the list that belongs to `entity`.
pub open spec fn monitor_of_entity<M>(monitors: Seq<(M, u64)>, entity: u64) -> Option<M> {
    monitor_of_entity_from(monitors, entity, 0)
}

/// The monitor at place `n` of the list.
pub open spec fn monitor_at<M>(monitors: Seq<(M, u64)>, n: usize) -> Option<M> {
    if n < monitors.len() {
        Some(monitors[n as int].0)
    } else {
        None
    }
}

/// The monitor that `selection` asks for, given the known monitors, the
/// primary monitor and the monitor that the window is on.
pub open spec fn selected_monitor<M>(
    monitors: Seq<(M, u64)>,
    primary: Option<M>,
    current: Option<M>,
    selection: MonitorSelection,
) -> Option<M> {
    match selection {
        MonitorSelection::Current => current,
        MonitorSelection::Primary => primary,
        MonitorSelection::Index(n) => monitor_at(monitors, n),
        MonitorSelection::Entity(entity) => monitor_of_entity(monitors, entity),
    }
}

/// The monitor that a window in `mode` is created on: the one that the mode
/// selects, with no current monitor yet; none for a windowed window.
pub open spec fn monitor_for_mode<M>(
    monitors: Seq<(M, u64)>,
    primary: Option<M>,
    mode: WindowMode,
) -> Option<M> {
    match mode {
        WindowMode::BorderlessFullscreen(selection)
        | WindowMode::Fullscreen(selection)
        | WindowMode::SizedFullscreen(selection) => selected_monitor(
            monitors,
            primary,
            None,
            selection,
        ),
        WindowMode::Windowed => None,
    }
}

impl<M> WinitMonitors<M> {
    /// A list without monitors.
    pub fn new() -> (monitors: Self)
        ensures
            monitors@ == Seq::<(M, u64)>::empty(),
    {
        WinitMonitors { monitors: Vec::new() }
    }

    /// Adds a monitor and the bits of its entity at the end of the list.
    pub fn push(&mut self, monitor: M, entity: u64)
        ensures
            final(self)@ == old(self)@.push((monitor, entity)),
    {
        self.monitors.push((monitor, entity));
    }

    /// The number of monitors.
    pub fn len(&self) -> (n: usize)
        ensures
            n == self@.len(),
    {
        self.monitors.len()
    }

    /// The monitor at place `n`.
    pub fn nth(&self, n: usize) -> (monitor: Option<&M>)
        ensures
            pointee(monitor) == monitor_at(self@, n),
    {
        if n < self.monitors.len() {
            Some(&self.monitors[n].0)
        } else {
            None
        }
    }

    /// The first monitor that belongs to `entity`.
    pub fn find_entity(&self, entity: u64) -> (monitor: Option<&M>)
        ensures
            pointee(monitor) == monitor_of_entity(self@, entity),
    {
        let mut i: usize = 0;
        while i < self.monitors.len()
            invariant
                i <= self.monitors@.len(),
                monitor_of_entity(self.monitors@, entity) == monitor_of_entity_from(
                    self.monitors@,
                    entity,
                    i as int,
                ),
            decreases self.monitors@.len() - i,
        {
            if self.monitors[i].1 == entity {
                return Some(&self.monitors[i].0);
            }
            i = i + 1;
        }
        None
    }
}

impl<M> Default for WinitMonitors<M> {
    /// A list without monitors.
    fn default() -> (monitors: Self)
        ensures
            monitors@ == Seq::<(M, u64)>::empty(),
    {
        WinitMonitors::new()
    }
}

/// Selects a monitor based on the given `MonitorSelection`.
pub fn select_monitor<'a, M>(
    monitors: &'a WinitMonitors<M>,
    primary_monitor: Option<&'a M>,
    current_monitor: Option<&'a M>,
    monitor_selection: &MonitorSelection,
) -> (selected: Option<&'a M>)
    ensures
        pointee(selected) == selected_monitor(
            monitors@,
            pointee(primary_monitor),
            pointee(current_monitor),
            *monitor_selection,
        ),
{
    match monitor_selection {
        MonitorSelection::Current => current_monitor,
        MonitorSelection::Primary => primary_monitor,
        MonitorSelection::Index(n) => monitors.nth(*n),
        MonitorSelection::Entity(entity) => monitors.find_entity(*entity),
    }
}

/// Selects the monitor on which a window in `mode` is created. A window that
/// is being created is on no monitor yet, so `MonitorSelection::Current`
/// selects none.
pub fn select_monitor_for_mode<'a, M>(
    monitors: &'a WinitMonitors<M>,
    primary_monitor: Option<&'a M>,
    mode: &WindowMode,
) -> (selected: Option<&'a M>)
    ensures
        pointee(selected) == monitor_for_mode(monitors@, pointee(primary_monitor), *mode),
{
    match mode {
        WindowMode::BorderlessFullscreen(monitor_selection)
        | WindowMode::Fullscreen(monitor_selection)
        | WindowMode::SizedFullscreen(monitor_selection) => select_monitor(
            monitors,
            primary_monitor,
            None,
            monitor_selection,
        ),
        WindowMode::Windowed => None,
    }
}

/// What `monitor_of_entity` finds: the monitor at the first place whose
/// entity is `entity`, and nothing exactly when no monitor belongs to it.
pub proof fn lemma_monitor_of_entity_is_first<M>(monitors: Seq<(M, u64)>, entity: u64)
    ensures
        match monitor_of_entity(monitors, entity) {
            Some(monitor) => exists|i: int|
                {
                    &&& 0 <= i < monitors.len()
                    &&& (#[trigger] monitors[i]).1 == entity
                    &&& monitors[i].0 == monitor
                    &&& forall|j: int| 0 <= j < i ==> (#[trigger] monitors[j]).1 != entity
                },
            None => forall|j: int| 0 <= j < monitors.len() ==> (#[trigger] monitors[j]).1 != entity,
        },
{
    lemma_monitor_of_entity_from(monitors, entity, 0);
}

proof fn lemma_monitor_of_entity_from<M>(monitors: Seq<(M, u64)>, entity: u64, start: int)
    requires
        0 <= start <= monitors.len(),
    ensures
        match monitor_of_entity_from(monitors, entity, start) {
            Some(monitor) => exists|i: int|
                {
                    &&& start <= i < monitors.len()
                    &&& (#[trigger] monitors[i]).1 == entity
                    &&& monitors[i].0 == monitor
                    &&& forall|j: int| start <= j < i ==> (#[trigger] monitors[j]).1 != entity
                },
            None => forall|j: int| start <= j < monitors.len() ==> (#[trigger] monitors[j]).1 != entity,
        },
    decreases monitors.len() - start,
{
    if start < monitors.len() {
        if monitors[start].1 == entity {
            assert(forall|j: int| start <= j < start ==> (#[trigger] monitors[j]).1 != entity);
        } else {
            lemma_monitor_of_entity_from(monitors, entity, start + 1);
            match monitor_of_entity_from(monitors, entity, start + 1) {
                Some(monitor) => {
                    let i = choose|i: int|
                        {
                            &&& start + 1 <= i < monitors.len()
                            &&& (#[trigger] monitors[i]).1 == entity
                            &&& monitors[i].0 == monitor
                            &&& forall|j: int|
                                start + 1 <= j < i ==> (#[trigger] monitors[j]).1 != entity
                        };
                    assert(forall|j: int| start <= j < i ==> (#[trigger] monitors[j]).1 != entity);
                },
                None => {},
            }
        }
    }
}

} // verus!
