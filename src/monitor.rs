//! The per-device monitor: what to do at the top of each loop iteration, with
//! each batch of events, and after each read failure. The caller performs the
//! I/O (open, grab, read, emit) and reports back.
use vstd::prelude::*;
use crate::keys::{apply_events, has_press, is_press, KeyEvent, PressedKeys};
use crate::mode::CaptureMode;

verus! {

/// OS error code for "no such device": the device is gone.
pub const ENODEV: i32 = 19;

/// OS error code for "try again": nothing to read yet.
pub const EAGAIN: i32 = 11;

/// Pause before retrying a failed open or grab.
pub const OPEN_RETRY_MILLIS: u64 = 2000;

/// Pause before reopening after a read error.
pub const READ_ERROR_BACKOFF_MILLIS: u64 = 100;

/// What the monitor does next at the top of an iteration.
pub enum LoopStep {
    /// Emit a release for each listed key, then end the monitor.
    Stop { release: Vec<u16> },
    /// Emit a release for each listed key, close the device, and open it
    /// again, grabbing it iff `mode` is `Grab`.
    Open { release: Vec<u16>, mode: CaptureMode },
    /// Read the next batch of events.
    Read,
}

/// The keys a step asks to release.
pub open spec fn release_of(step: LoopStep) -> Seq<u16> {
    match step {
        LoopStep::Stop { release } => release@,
        LoopStep::Open { release, .. } => release@,
        LoopStep::Read => Seq::empty(),
    }
}

/// What to do with one batch of events.
pub struct BatchPlan {
    /// Switch to this layout before forwarding.
    pub switch_to: Option<u32>,
    /// Forward the batch unchanged through the virtual device.
    pub forward: bool,
}

/// How a read failure is handled.
#[derive(Clone, Copy, PartialEq, Eq, Structural, Debug)]
pub enum ReadFailure {
    /// The device is gone: the monitor ends.
    Vanished,
    /// Nothing to read yet: read again.
    WouldBlock,
    /// Anything else: close, pause, reopen.
    Other,
}

/// The class of a read failure with the given OS error code.
pub open spec fn read_failure_of(os_error: Option<i32>) -> ReadFailure {
    if os_error == Some(ENODEV) {
        ReadFailure::Vanished
    } else if os_error == Some(EAGAIN) {
        ReadFailure::WouldBlock
    } else {
        ReadFailure::Other
    }
}

/// Classifies a read failure by its OS error code.
pub fn classify_read_error(os_error: Option<i32>) -> (r: ReadFailure)
    ensures
        r == read_failure_of(os_error),
{
    match os_error {
        Some(code) => {
            if code == ENODEV {
                ReadFailure::Vanished
            } else if code == EAGAIN {
                ReadFailure::WouldBlock
            } else {
                ReadFailure::Other
            }
        },
        None => ReadFailure::Other,
    }
}

/// The decision state of one device monitor.
pub struct DeviceMonitor {
    layout_index: u32,
    pressed: PressedKeys,
    opened_in: Option<CaptureMode>,
    stopped: bool,
}

impl DeviceMonitor {
    /// The held-key set is well formed.
    pub closed spec fn wf(&self) -> bool {
        self.pressed.wf()
    }

    /// The layout this monitor's keyboard selects.
    pub closed spec fn spec_layout_index(&self) -> u32 {
        self.layout_index
    }

    /// The keys believed held.
    pub closed spec fn held(&self) -> Set<u16> {
        self.pressed@
    }

    /// The mode the device is open in, or none while it is closed.
    pub closed spec fn spec_opened_in(&self) -> Option<CaptureMode> {
        self.opened_in
    }

    /// The monitor has ended.
    pub closed spec fn spec_stopped(&self) -> bool {
        self.stopped
    }

    /// A monitor for a keyboard selecting `layout_index`, with its device
    /// closed and no key held.
    pub fn new(layout_index: u32) -> (r: DeviceMonitor)
        ensures
            r.wf(),
            r.spec_layout_index() == layout_index,
            r.held() == Set::<u16>::empty(),
            r.spec_opened_in() is None,
            !r.spec_stopped(),
    {
        DeviceMonitor { layout_index, pressed: PressedKeys::new(), opened_in: None, stopped: false }
    }

    /// The layout this monitor's keyboard selects.
    pub fn layout_index(&self) -> (r: u32)
        ensures
            r == self.spec_layout_index(),
    {
        self.layout_index
    }

    /// The mode the device is open in, if it is open.
    pub fn opened_in(&self) -> (r: Option<CaptureMode>)
        ensures
            r == self.spec_opened_in(),
    {
        self.opened_in
    }

    /// Whether the monitor has ended.
    pub fn is_stopped(&self) -> (r: bool)
        ensures
            r == self.spec_stopped(),
    {
        self.stopped
    }

    /// Whether `code` is believed held.
    pub fn is_held(&self, code: u16) -> (r: bool)
        requires
            self.wf(),
        ensures
            r == self.held().contains(code),
    {
        self.pressed.contains(code)
    }

    /// How many keys are believed held.
    pub fn held_count(&self) -> (r: usize)
        requires
            self.wf(),
        ensures
            r == self.held().len(),
    {
        self.pressed.len()
    }

    /// The top of a loop iteration, given the shutdown signal and the capture
    /// mode now in force. On shutdown, or when the device is closed or open in
    /// another mode, every held key is handed out for release, exactly once,
    /// and the set is emptied; otherwise the device is read.
    pub fn begin_iteration(&mut self, shutdown: bool, mode: CaptureMode) -> (r: LoopStep)
        requires
            old(self).wf(),
        ensures
            final(self).wf(),
            final(self).spec_layout_index() == old(self).spec_layout_index(),
            release_of(r).no_duplicates(),
            shutdown ==> {
                &&& r is Stop
                &&& release_of(r).to_set() == old(self).held()
                &&& final(self).held() == Set::<u16>::empty()
                &&& final(self).spec_opened_in() is None
                &&& final(self).spec_stopped()
            },
            !shutdown && old(self).spec_opened_in() != Some(mode) ==> {
                &&& r matches LoopStep::Open { mode: m, .. } && m == mode
                &&& release_of(r).to_set() == old(self).held()
                &&& final(self).held() == Set::<u16>::empty()
                &&& final(self).spec_opened_in() is None
                &&& final(self).spec_stopped() == old(self).spec_stopped()
            },
            !shutdown && old(self).spec_opened_in() == Some(mode) ==> {
                &&& r is Read
                &&& *final(self) == *old(self)
            },
    {
        if shutdown {
            let release = self.pressed.take_all();
            self.opened_in = None;
            self.stopped = true;
            return LoopStep::Stop { release };
        }
        let same = match self.opened_in {
            Some(m) => m == mode,
            None => false,
        };
        if same {
            LoopStep::Read
        } else {
            let release = self.pressed.take_all();
            self.opened_in = None;
            LoopStep::Open { release, mode }
        }
    }

    /// Records that the device was opened (and grabbed, in grab mode).
    pub fn device_opened(&mut self, mode: CaptureMode)
        ensures
            final(self).spec_opened_in() == Some(mode),
            final(self).held() == old(self).held(),
            final(self).wf() == old(self).wf(),
            final(self).spec_layout_index() == old(self).spec_layout_index(),
            final(self).spec_stopped() == old(self).spec_stopped(),
    {
        self.opened_in = Some(mode);
    }

    /// Takes in one batch read from the open device, with the layout the
    /// coordinator currently believes active. Every event updates the held
    /// set; a press asks for a switch when the current layout differs from
    /// this keyboard's; in grab mode a non-empty batch is forwarded.
    pub fn on_batch(&mut self, events: &Vec<KeyEvent>, current_layout: u32) -> (r: BatchPlan)
        requires
            old(self).wf(),
        ensures
            final(self).wf(),
            final(self).held() == apply_events(old(self).held(), events@),
            final(self).spec_layout_index() == old(self).spec_layout_index(),
            final(self).spec_opened_in() == old(self).spec_opened_in(),
            final(self).spec_stopped() == old(self).spec_stopped(),
            r.switch_to == (if has_press(events@) && current_layout != old(self).spec_layout_index() {
                Some(old(self).spec_layout_index())
            } else {
                None
            }),
            r.forward == (old(self).spec_opened_in() == Some(CaptureMode::Grab) && events@.len() > 0),
    {
        let mut pressed_any = false;
        let mut i: usize = 0;
        while i < events.len()
            invariant
                self.wf(),
                i <= events@.len(),
                self.layout_index == old(self).layout_index,
                self.opened_in == old(self).opened_in,
                self.stopped == old(self).stopped,
                self.held() == apply_events(old(self).held(), events@.subrange(0, i as int)),
                pressed_any == has_press(events@.subrange(0, i as int)),
            decreases events@.len() - i,
        {
            let e = &events[i];
            let ghost prev = events@.subrange(0, i as int);
            let ghost next = events@.subrange(0, i + 1);
            assert(next.drop_last() =~= prev);
            assert(next.last() == events@[i as int]);
            self.pressed.apply(e);
            if e.event_type == crate::keys::EV_KEY && e.value == crate::keys::KEY_PRESS {
                assert(is_press(next[i as int]));
                pressed_any = true;
            } else {
                assert(!is_press(next[i as int]));
                assert forall|j: int| 0 <= j < next.len() && is_press(#[trigger] next[j]) implies 0 <= j < prev.len() && is_press(prev[j]) by {
                    assert(j != i);
                }
            }
            i = i + 1;
        }
        assert(events@.subrange(0, events@.len() as int) =~= events@);
        let switch_to = if pressed_any && current_layout != self.layout_index {
            Some(self.layout_index)
        } else {
            None
        };
        let forward = match self.opened_in {
            Some(CaptureMode::Grab) => events.len() > 0,
            _ => false,
        };
        BatchPlan { switch_to, forward }
    }

    /// Takes in a failed read. A vanished device ends the monitor; a
    /// would-block failure changes nothing; any other failure closes the
    /// device, so the next iteration releases held keys and reopens it.
    pub fn on_read_error(&mut self, os_error: Option<i32>) -> (r: ReadFailure)
        ensures
            r == read_failure_of(os_error),
            final(self).wf() == old(self).wf(),
            final(self).held() == old(self).held(),
            final(self).spec_layout_index() == old(self).spec_layout_index(),
            r == ReadFailure::Vanished ==> final(self).spec_stopped() && final(self).spec_opened_in() is None,
            r == ReadFailure::WouldBlock ==> *final(self) == *old(self),
            r == ReadFailure::Other ==> final(self).spec_opened_in() is None && final(self).spec_stopped() == old(self).spec_stopped(),
    {
        let failure = classify_read_error(os_error);
        match failure {
            ReadFailure::Vanished => {
                self.opened_in = None;
                self.stopped = true;
            },
            ReadFailure::WouldBlock => {},
            ReadFailure::Other => {
                self.opened_in = None;
            },
        }
        failure
    }
}

} // verus!
