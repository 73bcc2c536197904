//! The GameCube adapter's ports as gamepads: which port connected or
//! disconnected since the last frame, and which gamepad stands for it.

use vstd::prelude::*;

verus! {

/// GameCube adapters report 4 ports.
pub const GC_PORT_COUNT: usize = 4;

/// Marks a gamepad as backed by an adapter port (0 to 3).
#[derive(Clone, Copy, PartialEq, Eq, Structural, Debug)]
pub struct GcPort(pub u8);

/// A port's connection changed since the last frame.
#[derive(Clone, Copy, PartialEq, Eq, Structural, Debug)]
pub enum GcConnectionChange {
    /// A controller was plugged into the port. Its gamepad is the one the
    /// port already has, or, where it has none, one to be created for it.
    Connected { port: usize, entity: Option<u64> },
    /// The controller of the port, whose gamepad is `entity`, was unplugged.
    Disconnected { port: usize, entity: u64 },
}

/// Which gamepad (if any) stands for each port, and which ports were
/// connected at the last frame.
#[derive(Clone, Copy, Debug)]
pub struct GcPorts {
    pub entities: [Option<u64>; GC_PORT_COUNT],
    pub last_connected: [bool; GC_PORT_COUNT],
}

/// What changed for one port.
pub open spec fn port_change(port: int, entity: Option<u64>, was: bool, now: bool) -> Option<GcConnectionChange> {
    if now && !was {
        Some(GcConnectionChange::Connected { port: port as usize, entity })
    } else if !now && was {
        match entity {
            Some(e) => Some(GcConnectionChange::Disconnected { port: port as usize, entity: e }),
            None => None,
        }
    } else {
        None
    }
}

/// The changes of the first `n` ports, in port order.
pub open spec fn port_changes(ports: GcPorts, connected: Seq<bool>, n: int) -> Seq<GcConnectionChange>
    decreases n,
{
    if n <= 0 {
        Seq::empty()
    } else {
        let before = port_changes(ports, connected, n - 1);
        match port_change(n - 1, ports.entities@[n - 1], ports.last_connected@[n - 1], connected[n - 1]) {
            Some(c) => before.push(c),
            None => before,
        }
    }
}

impl GcPorts {
    /// No gamepads, nothing connected.
    pub fn new() -> (r: GcPorts)
        ensures
            r.entities@ == seq![None::<u64>, None, None, None],
            r.last_connected@ == seq![false, false, false, false],
    {
        GcPorts { entities: [None, None, None, None], last_connected: [false, false, false, false] }
    }

    /// The connections and disconnections since the last frame, given which
    /// ports are connected now, in port order.
    pub fn connection_changes(&self, connected: &[bool; GC_PORT_COUNT]) -> (r: Vec<GcConnectionChange>)
        ensures
            r@ == port_changes(*self, connected@, 4),
    {
        let mut changes: Vec<GcConnectionChange> = Vec::new();
        let mut i: usize = 0;
        while i < GC_PORT_COUNT
            invariant
                i <= 4,
                changes@ == port_changes(*self, connected@, i as int),
            decreases 4 - i,
        {
            let was_connected = self.last_connected[i];
            let is_connected = connected[i];
            if is_connected && !was_connected {
                changes.push(GcConnectionChange::Connected { port: i, entity: self.entities[i] });
            } else if !is_connected && was_connected {
                if let Some(entity) = self.entities[i] {
                    changes.push(GcConnectionChange::Disconnected { port: i, entity });
                }
            }
            i = i + 1;
        }
        changes
    }

    /// The gamepad of port `port`, where that port exists and has one.
    pub fn gamepad_of_port(&self, port: usize) -> (r: Option<u64>)
        ensures
            r == (if port < 4 {
                self.entities@[port as int]
            } else {
                None
            }),
    {
        if port < GC_PORT_COUNT {
            self.entities[port]
        } else {
            None
        }
    }

    /// Records the gamepad created for a port.
    pub fn set_entity(&mut self, port: usize, entity: u64)
        requires
            port < 4,
        ensures
            final(self).entities@ == old(self).entities@.update(port as int, Some(entity)),
            final(self).last_connected == old(self).last_connected,
    {
        self.entities[port] = Some(entity);
    }

    /// Remembers which ports are connected now, to compare the next frame
    /// against.
    pub fn remember(&mut self, connected: &[bool; GC_PORT_COUNT])
        ensures
            final(self).entities == old(self).entities,
            final(self).last_connected == *connected,
    {
        self.last_connected = *connected;
    }
}

impl Default for GcPorts {
    fn default() -> (r: GcPorts)
        ensures
            r.entities@ == seq![None::<u64>, None, None, None],
            r.last_connected@ == seq![false, false, false, false],
    {
        GcPorts::new()
    }
}

/// Once the ports' connections have been remembered, the same connections
/// report no change.
pub proof fn remembered_connections_report_nothing(ports: GcPorts, connected: Seq<bool>)
    requires
        ports.last_connected@ == connected,
    ensures
        port_changes(ports, connected, 4) == Seq::<GcConnectionChange>::empty(),
{
    reveal_with_fuel(port_changes, 5);
}

} // verus!
