//! Saving power on a connection without traffic.

use vstd::prelude::*;

use crate::errno::Errno;

verus! {

/// How much of the time a connection is awake.
#[derive(Clone, Copy, Debug, PartialEq, Eq, Structural)]
pub enum PowerState {
    /// All the time.
    Active,
    /// In windows.
    Sniff,
    /// To keep the connection up.
    Idle,
    /// Never.
    Suspended,
}

impl PowerState {
    /// Code of the state.
    #[verifier::allow_in_spec]
    pub fn code(self) -> u8
        returns
            (match self {
                PowerState::Active => 0u8,
                PowerState::Sniff => 1u8,
                PowerState::Idle => 2u8,
                PowerState::Suspended => 3u8,
            }),
    {
        match self {
            PowerState::Active => 0,
            PowerState::Sniff => 1,
            PowerState::Idle => 2,
            PowerState::Suspended => 3,
        }
    }
}

impl Default for PowerState {
    fn default() -> (r: Self)
        ensures
            r == PowerState::Active,
    {
        PowerState::Active
    }
}

/// Timing of a connection. Intervals are in units of 1.25 ms.
#[derive(Clone, Copy, Debug)]
pub struct ConnInterval {
    /// Shortest interval, 6 to 3200.
    pub min_interval: u16,
    /// Longest interval, up to 3200.
    pub max_interval: u16,
    /// Interval in use.
    pub current_interval: u16,
    /// Events that a peripheral may skip.
    pub latency: u16,
    /// Time without traffic after which the link is given up, in units of 10 ms.
    pub supervision_timeout: u16,
}

impl Default for ConnInterval {
    fn default() -> (r: Self)
        ensures
            r == (ConnInterval {
                min_interval: 24,
                max_interval: 40,
                current_interval: 32,
                latency: 0,
                supervision_timeout: 200,
            }),
            r.valid(),
    {
        ConnInterval {
            min_interval: 24,
            max_interval: 40,
            current_interval: 32,
            latency: 0,
            supervision_timeout: 200,
        }
    }
}

impl ConnInterval {
    /// Whether the timing is within the limits: intervals of 7.5 ms to 4 s, a time-out of
    /// 100 ms to 32 s, and more than two longest intervals for each event that may pass
    /// without an answer before the time-out.
    pub open spec fn valid(self) -> bool {
        &&& 6 <= self.min_interval <= 3200
        &&& self.min_interval <= self.max_interval <= 3200
        &&& 8 * self.supervision_timeout > (1 + self.latency) * self.max_interval * 2
        &&& 10 <= self.supervision_timeout <= 3200
    }

    /// Returns `EINVAL` where the timing is out of the limits.
    pub fn validate(&self) -> (r: Result<(), Errno>)
        ensures
            r == (if self.valid() {
                Ok::<(), Errno>(())
            } else {
                Err(Errno::EINVAL)
            }),
    {
        if self.min_interval < 6 || self.min_interval > 3200 {
            return Err(Errno::EINVAL);
        }
        if self.max_interval < self.min_interval || self.max_interval > 3200 {
            return Err(Errno::EINVAL);
        }
        let events = 1 + self.latency as u64;
        let longest = self.max_interval as u64;
        assert(events * longest <= 0x1_0000 * 3200) by (nonlinear_arith)
            requires
                events <= 0x1_0000,
                longest <= 3200,
        ;
        if 8 * (self.supervision_timeout as u64) <= events * longest * 2 {
            return Err(Errno::EINVAL);
        }
        if self.supervision_timeout < 10 || self.supervision_timeout > 3200 {
            return Err(Errno::EINVAL);
        }
        Ok(())
    }

    /// The interval in use, in whole milliseconds.
    pub fn current_ms(&self) -> (r: u32)
        ensures
            r == self.current_interval * 125 / 100,
    {
        (self.current_interval as u32) * 125 / 100
    }

    /// The time-out in milliseconds.
    pub fn supervision_timeout_ms(&self) -> (r: u32)
        ensures
            r == self.supervision_timeout * 10,
    {
        self.supervision_timeout as u32 * 10
    }
}

/// Timing of the windows, in units of 1.25 ms.
#[derive(Clone, Copy, Debug)]
pub struct SniffParams {
    /// Time from window to window.
    pub sniff_interval: u16,
    /// Length of a window.
    pub sniff_window: u16,
    /// Most attempts.
    pub sniff_attempt: u16,
    /// Time to wait for data.
    pub sniff_timeout: u16,
}

impl Default for SniffParams {
    fn default() -> (r: Self)
        ensures
            r == (SniffParams {
                sniff_interval: 800,
                sniff_window: 16,
                sniff_attempt: 4,
                sniff_timeout: 2,
            }),
    {
        SniffParams { sniff_interval: 800, sniff_window: 16, sniff_attempt: 4, sniff_timeout: 2 }
    }
}

/// What happened so far.
#[derive(Clone, Copy, Debug)]
pub struct PowerStats {
    /// Events while active.
    pub active_events: u64,
    /// Events in windows.
    pub sniff_events: u64,
    /// Events while idle.
    pub idle_events: u64,
    /// Changes of state.
    pub transitions: u32,
    /// How often the connection was held active.
    pub force_active_count: u32,
    /// Warnings that the link is about to be given up.
    pub supervision_warnings: u32,
}

impl Default for PowerStats {
    fn default() -> (r: Self)
        ensures
            r == (PowerStats {
                active_events: 0,
                sniff_events: 0,
                idle_events: 0,
                transitions: 0,
                force_active_count: 0,
                supervision_warnings: 0,
            }),
    {
        PowerStats {
            active_events: 0,
            sniff_events: 0,
            idle_events: 0,
            transitions: 0,
            force_active_count: 0,
            supervision_warnings: 0,
        }
    }
}

/// Power saving of a connection.
#[derive(Clone, Copy, Debug)]
pub struct PowerInner {
    /// State.
    pub state: PowerState,
    /// Timing.
    pub interval: ConnInterval,
    /// Timing of the windows.
    pub sniff: SniffParams,
    /// Whether the connection is held active.
    pub forced: bool,
    /// Events since the last traffic.
    pub idle_count: u32,
    /// Events without traffic after which windows begin.
    pub sniff_threshold: u32,
    /// Further events without traffic after which the connection is idle.
    pub idle_threshold: u32,
    /// What happened so far.
    pub stats: PowerStats,
}

impl PowerInner {
    /// No counter is at its limit.
    pub open spec fn countable(self) -> bool {
        &&& self.idle_count < u32::MAX
        &&& self.sniff_threshold + self.idle_threshold <= u32::MAX
        &&& self.stats.active_events < u64::MAX
        &&& self.stats.sniff_events < u64::MAX
        &&& self.stats.idle_events < u64::MAX
        &&& self.stats.transitions < u32::MAX
        &&& self.stats.force_active_count < u32::MAX
    }

    /// In state `st`; a change of state is counted.
    pub open spec fn moved(self, st: PowerState) -> PowerInner {
        if self.state == st {
            self
        } else {
            PowerInner {
                state: st,
                stats: PowerStats {
                    transitions: (self.stats.transitions + 1) as u32,
                    ..self.stats
                },
                ..self
            }
        }
    }

    /// After an event without traffic.
    pub open spec fn ticked(self) -> PowerInner {
        let n = (self.idle_count + 1) as u32;
        let c = PowerInner { idle_count: n, ..self };
        match self.state {
            PowerState::Suspended => self,
            PowerState::Active => {
                let d = PowerInner {
                    stats: PowerStats {
                        active_events: (c.stats.active_events + 1) as u64,
                        ..c.stats
                    },
                    ..c
                };
                if !self.forced && n >= self.sniff_threshold {
                    d.moved(PowerState::Sniff)
                } else {
                    d
                }
            },
            PowerState::Sniff => {
                let d = PowerInner {
                    stats: PowerStats {
                        sniff_events: (c.stats.sniff_events + 1) as u64,
                        ..c.stats
                    },
                    ..c
                };
                if n >= self.sniff_threshold + self.idle_threshold {
                    d.moved(PowerState::Idle)
                } else {
                    d
                }
            },
            PowerState::Idle => PowerInner {
                stats: PowerStats { idle_events: (c.stats.idle_events + 1) as u64, ..c.stats },
                ..c
            },
        }
    }

    /// After `n` events without traffic.
    pub open spec fn ticked_times(self, n: nat) -> PowerInner
        decreases n,
    {
        if n == 0 {
            self
        } else {
            self.ticked_times((n - 1) as nat).ticked()
        }
    }

    /// After traffic.
    pub open spec fn touched(self) -> PowerInner {
        let c = PowerInner { idle_count: 0, ..self };
        let d = if !self.forced {
            c.moved(PowerState::Active)
        } else {
            c
        };
        PowerInner {
            stats: PowerStats { active_events: (d.stats.active_events + 1) as u64, ..d.stats },
            ..d
        }
    }

    /// A connection that is active.
    pub fn new() -> (r: Self)
        ensures
            r.state == PowerState::Active,
            r.interval.valid(),
            r.interval.current_interval == 32,
            r.interval.min_interval == 24,
            r.interval.max_interval == 40,
            r.interval.latency == 0,
            r.interval.supervision_timeout == 200,
            r.sniff == (SniffParams {
                sniff_interval: 800,
                sniff_window: 16,
                sniff_attempt: 4,
                sniff_timeout: 2,
            }),
            !r.forced,
            r.idle_count == 0,
            r.sniff_threshold == 50,
            r.idle_threshold == 200,
            r.stats == (PowerStats {
                active_events: 0,
                sniff_events: 0,
                idle_events: 0,
                transitions: 0,
                force_active_count: 0,
                supervision_warnings: 0,
            }),
            r.countable(),
    {
        PowerInner {
            state: PowerState::Active,
            interval: ConnInterval::default(),
            sniff: SniffParams::default(),
            forced: false,
            idle_count: 0,
            sniff_threshold: 50,
            idle_threshold: 200,
            stats: PowerStats::default(),
        }
    }

    /// Takes in a timing, with the shortest interval in use, or returns `EINVAL` where it
    /// is out of the limits.
    pub fn update_interval(&mut self, params: ConnInterval) -> (r: Result<(), Errno>)
        ensures
            if params.valid() {
                r == Ok::<(), Errno>(()) && *final(self) == (PowerInner {
                    interval: ConnInterval { current_interval: params.min_interval, ..params },
                    ..*old(self)
                })
            } else {
                r == Err::<(), Errno>(Errno::EINVAL) && *final(self) == *old(self)
            },
    {
        match params.validate() {
            Ok(()) => {},
            Err(e) => return Err(e),
        }
        self.interval = params;
        self.interval.current_interval = params.min_interval;
        Ok(())
    }

    /// Takes in the timing of the windows.
    pub fn set_sniff_params(&mut self, params: SniffParams)
        ensures
            *final(self) == (PowerInner { sniff: params, ..*old(self) }),
    {
        self.sniff = params;
    }

    /// Holds the connection active, or lets go of it.
    pub fn force_active(&mut self, enable: bool)
        requires
            old(self).countable(),
        ensures
            *final(self) == (if enable {
                let c = PowerInner { forced: true, ..*old(self) };
                PowerInner {
                    stats: PowerStats {
                        force_active_count: (c.stats.force_active_count + 1) as u32,
                        ..c.stats
                    },
                    ..c
                }.moved(PowerState::Active)
            } else {
                PowerInner { forced: false, ..*old(self) }
            }),
    {
        self.forced = enable;
        if enable {
            self.stats.force_active_count = self.stats.force_active_count + 1;
            self.transition_to(PowerState::Active);
        }
    }

    /// Whether the connection is held active.
    pub fn is_forced_active(&self) -> (r: bool)
        ensures
            r == self.forced,
    {
        self.forced
    }

    /// There was traffic.
    pub fn on_activity(&mut self)
        requires
            old(self).countable(),
        ensures
            *final(self) == old(self).touched(),
    {
        self.idle_count = 0;
        if self.state != PowerState::Active && !self.forced {
            self.transition_to(PowerState::Active);
        }
        self.stats.active_events = self.stats.active_events + 1;
    }

    /// There was an event without traffic.
    pub fn on_tick(&mut self)
        requires
            old(self).countable(),
        ensures
            *final(self) == old(self).ticked(),
    {
        if self.state == PowerState::Suspended {
            return;
        }
        self.idle_count = self.idle_count + 1;
        match self.state {
            PowerState::Active => {
                self.stats.active_events = self.stats.active_events + 1;
                if !self.forced && self.idle_count >= self.sniff_threshold {
                    self.transition_to(PowerState::Sniff);
                }
            },
            PowerState::Sniff => {
                self.stats.sniff_events = self.stats.sniff_events + 1;
                if self.idle_count >= self.sniff_threshold + self.idle_threshold {
                    self.transition_to(PowerState::Idle);
                }
            },
            PowerState::Idle => {
                self.stats.idle_events = self.stats.idle_events + 1;
            },
            PowerState::Suspended => {},
        }
    }

    /// Puts the connection to sleep, or returns `EBUSY` where it is held active.
    pub fn suspend(&mut self) -> (r: Result<(), Errno>)
        requires
            old(self).countable(),
        ensures
            if old(self).forced {
                r == Err::<(), Errno>(Errno::EBUSY) && *final(self) == *old(self)
            } else {
                r == Ok::<(), Errno>(()) && *final(self) == old(self).moved(PowerState::Suspended)
            },
    {
        if self.forced {
            return Err(Errno::EBUSY);
        }
        self.transition_to(PowerState::Suspended);
        Ok(())
    }

    /// Wakes the connection.
    pub fn resume(&mut self)
        requires
            old(self).countable(),
        ensures
            *final(self) == (PowerInner { idle_count: 0, ..old(self).moved(PowerState::Active) }),
    {
        self.transition_to(PowerState::Active);
        self.idle_count = 0;
    }

    /// Estimate of the power used, in percent.
    pub fn estimated_power_pct(&self) -> (r: u8)
        ensures
            r == match self.state {
                PowerState::Active => 100u8,
                PowerState::Sniff => 30u8,
                PowerState::Idle => 5u8,
                PowerState::Suspended => 0u8,
            },
    {
        match self.state {
            PowerState::Active => 100,
            PowerState::Sniff => 30,
            PowerState::Idle => 5,
            PowerState::Suspended => 0,
        }
    }

    fn transition_to(&mut self, new_state: PowerState)
        requires
            old(self).stats.transitions < u32::MAX,
        ensures
            *final(self) == old(self).moved(new_state),
    {
        if self.state != new_state {
            self.state = new_state;
            self.stats.transitions = self.stats.transitions + 1;
        }
    }
}

/// A connection that is held active stays active, however long it is without traffic.
pub proof fn forced_stays_active(p: PowerInner, n: nat)
    requires
        p.forced,
        p.state == PowerState::Active,
    ensures
        p.ticked_times(n).state == PowerState::Active,
        p.ticked_times(n).forced,
    decreases n,
{
    if n > 0 {
        forced_stays_active(p, (n - 1) as nat);
    }
}

/// A fresh connection without traffic begins its windows after 50 events and is idle after
/// 250, and stays so.
pub proof fn falls_asleep(p: PowerInner, n: nat)
    requires
        p.state == PowerState::Active,
        !p.forced,
        p.idle_count == 0,
        p.sniff_threshold == 50,
        p.idle_threshold == 200,
        n < u32::MAX,
    ensures
        p.ticked_times(n).idle_count == n,
        p.ticked_times(n).state == (if n < 50 {
            PowerState::Active
        } else if n < 250 {
            PowerState::Sniff
        } else {
            PowerState::Idle
        }),
        p.ticked_times(n).sniff_threshold == 50,
        p.ticked_times(n).idle_threshold == 200,
        !p.ticked_times(n).forced,
    decreases n,
{
    if n > 0 {
        falls_asleep(p, (n - 1) as nat);
    }
}

/// Traffic wakes a connection from any state.
pub proof fn traffic_wakes(p: PowerInner)
    requires
        !p.forced,
    ensures
        p.touched().state == PowerState::Active,
        p.touched().idle_count == 0,
{
}

} // verus!
