use vstd::prelude::*;
use crate::config::{BackupConfig, extensions_well_formed, field_checks, field_error};
use crate::corner::{Corner, history_touches, history_touches_corner};
use crate::errors::Error;
use crate::gesture::{GestureMachine, GestureModel, Role, Stage};
use crate::history::MAX_HISTORY_CAPACITY;
use crate::position::{MousePosition, ScreenSize};

verus! {

/// How many positions a history keeps: the samples taken in one tracking window.
pub open spec fn history_capacity(millis_update_frequency: usize, tracking_window_sec: usize) -> int {
    (1000int / millis_update_frequency as int) * tracking_window_sec as int
}

/// The first configuration problem that stops tracking from starting, if any.
pub open spec fn tracker_error(config: BackupConfig, screen: Result<ScreenSize, Error>) -> Option<Error> {
    if config.millis_update_frequency == 0 {
        Some(Error::MillisUpdateFrequencyError)
    } else if config.tracking_window_sec == 0 {
        Some(Error::ZeroTrackingWindowSecError)
    } else if screen is Err {
        Some(screen->Err_0)
    } else if !screen->Ok_0.wf() {
        Some(Error::ScreenSizeError)
    } else if config.backup_source@.len() == 0 || config.backup_destination@.len() == 0 {
        Some(Error::BackupPathNotConfigured)
    } else if !(1 <= history_capacity(config.millis_update_frequency, config.tracking_window_sec)
        <= MAX_HISTORY_CAPACITY) {
        Some(Error::HistoryCapacityError)
    } else {
        None
    }
}

/// A validated configuration together with the bounds of the screen it tracks.
#[derive(Clone, Debug)]
pub struct MouseTracker {
    pub config: BackupConfig,
    pub screen_size: ScreenSize,
}

impl MouseTracker {
    pub open spec fn wf(&self) -> bool {
        &&& self.config.millis_update_frequency > 0
        &&& self.config.tracking_window_sec > 0
        &&& self.screen_size.wf()
        &&& 1 <= history_capacity(self.config.millis_update_frequency, self.config.tracking_window_sec)
            <= MAX_HISTORY_CAPACITY
    }

    /// Checks `config` before tracking starts; `screen` is the primary display's size, or
    /// the error met while reading it.
    pub fn from(config: BackupConfig, screen: Result<ScreenSize, Error>) -> (r: Result<MouseTracker, Error>)
        ensures
            match tracker_error(config, screen) {
                Some(e) => r == Err::<MouseTracker, Error>(e),
                None => r == Ok::<MouseTracker, Error>(MouseTracker { config, screen_size: screen->Ok_0 }),
            },
            r matches Ok(t) ==> t.wf(),
    {
        if config.millis_update_frequency == 0 {
            return Err(Error::MillisUpdateFrequencyError);
        }
        if config.tracking_window_sec == 0 {
            return Err(Error::ZeroTrackingWindowSecError);
        }
        let screen_size = match screen {
            Err(e) => {
                return Err(e);
            },
            Ok(s) => s,
        };
        if screen_size.max_width == 0 || screen_size.max_height == 0 {
            return Err(Error::ScreenSizeError);
        }
        if config.backup_source.as_str().is_empty() || config.backup_destination.as_str().is_empty() {
            return Err(Error::BackupPathNotConfigured);
        }
        let per_second = 1000 / config.millis_update_frequency;
        match per_second.checked_mul(config.tracking_window_sec) {
            Some(capacity) => {
                if capacity == 0 || capacity > MAX_HISTORY_CAPACITY {
                    return Err(Error::HistoryCapacityError);
                }
            },
            None => {
                return Err(Error::HistoryCapacityError);
            },
        }
        Ok(MouseTracker { config, screen_size })
    }

    /// The check made before tracking starts: the settings' own rules first (a file-mode
    /// backup with a directory source, or a folder-mode one with a file source, is refused),
    /// then those of `from`. `source_is_dir` tells whether the source path names a directory.
    pub fn start_tracking(config: BackupConfig, source_is_dir: bool, screen: Result<ScreenSize, Error>) -> (r: Result<
        MouseTracker,
        Error,
    >)
        ensures
            match field_error(config, source_is_dir, extensions_well_formed(config)) {
                Some(e) => r == Err::<MouseTracker, Error>(e),
                None => match tracker_error(config, screen) {
                    Some(e) => r == Err::<MouseTracker, Error>(e),
                    None => r == Ok::<MouseTracker, Error>(MouseTracker { config, screen_size: screen->Ok_0 }),
                },
            },
            r matches Ok(t) ==> t.wf(),
    {
        match field_checks(config, source_is_dir) {
            Err(e) => Err(e),
            Ok(c) => MouseTracker::from(c, screen),
        }
    }

    pub fn history_capacity(&self) -> (r: usize)
        requires
            self.wf(),
        ensures
            r == history_capacity(self.config.millis_update_frequency, self.config.tracking_window_sec),
    {
        let per_second = 1000 / self.config.millis_update_frequency;
        assert(per_second * self.config.tracking_window_sec <= MAX_HISTORY_CAPACITY);
        per_second * self.config.tracking_window_sec
    }

    /// The primary gesture instance, started at `now_ms`; the caller samples and ticks it.
    pub fn start(&self, now_ms: u64) -> (r: GestureMachine)
        requires
            self.wf(),
        ensures
            r.wf(),
            r@ == (GestureModel {
                role: Role::Primary,
                stage: Stage::Listening,
                bounds: self.screen_size,
                tolerance: self.config.tolerance,
                window_sec: self.config.tracking_window_sec as u64,
                started_at_ms: now_ms,
                capacity: history_capacity(self.config.millis_update_frequency, self.config.tracking_window_sec)
                    as nat,
                history: Seq::empty(),
            }),
    {
        GestureMachine::new(
            Role::Primary,
            self.screen_size,
            self.config.tolerance,
            self.config.tracking_window_sec as u64,
            self.history_capacity(),
            now_ms,
        )
    }

    /// The arming corner: the sample itself, or an earlier one, is the exact origin.
    pub fn is_touching_upper_left_corner(coordinates: &MousePosition, mouse_position_buffer: &Vec<MousePosition>) -> (r:
        bool)
        ensures
            r == (coordinates.is_origin() || mouse_position_buffer@.contains(MousePosition { x: 0, y: 0 })),
    {
        if coordinates.x == 0 && coordinates.y == 0 {
            return true;
        }
        let mut i: usize = 0;
        while i < mouse_position_buffer.len()
            invariant
                0 <= i <= mouse_position_buffer@.len(),
                forall|j: int| 0 <= j < i ==> mouse_position_buffer@[j] != (MousePosition { x: 0, y: 0 }),
            decreases mouse_position_buffer.len() - i,
        {
            let p = mouse_position_buffer[i];
            if p.x == 0 && p.y == 0 {
                assert(mouse_position_buffer@[i as int] == MousePosition { x: 0, y: 0 });
                return true;
            }
            i = i + 1;
        }
        false
    }

    pub fn is_touching_lower_left_corner(mouse_position_buffer: &Vec<MousePosition>, screen_size: &ScreenSize, tolerance: u32) -> (r: bool)
        ensures
            r == history_touches(mouse_position_buffer@, Corner::LowerLeft, *screen_size, tolerance),
    {
        history_touches_corner(mouse_position_buffer, Corner::LowerLeft, screen_size, tolerance)
    }

    pub fn is_touching_lower_right_corner(mouse_position_buffer: &Vec<MousePosition>, screen_size: &ScreenSize, tolerance: u32) -> (r: bool)
        ensures
            r == history_touches(mouse_position_buffer@, Corner::LowerRight, *screen_size, tolerance),
    {
        history_touches_corner(mouse_position_buffer, Corner::LowerRight, screen_size, tolerance)
    }

    pub fn is_touching_upper_right_corner(mouse_position_buffer: &Vec<MousePosition>, screen_size: &ScreenSize, tolerance: u32) -> (r: bool)
        ensures
            r == history_touches(mouse_position_buffer@, Corner::UpperRight, *screen_size, tolerance),
    {
        history_touches_corner(mouse_position_buffer, Corner::UpperRight, screen_size, tolerance)
    }
}

} // verus!
