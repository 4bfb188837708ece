use vstd::prelude::*;

use crate::config::{
    resolution, resolution_height, resolution_width, sampling_rate, supersample_rate,
    MAX_CHUNK_RENDER_TIME_MS, MAX_MOTION_FRAME_TIME_NS, MIN_CHUNK_RENDER_TIME_MS,
    MIN_MOTION_FRAME_TIME_NS, MOTION_MAX_SAMPLES, MOTION_MIN_SAMPLES, MOTION_REFLECTIONS,
    SCREENSHOT_REFLECTIONS, SHIFT_BACK_MASK, SHIFT_DOWN_MASK, SHIFT_FORWARD_MASK, SHIFT_LEFT_MASK,
    SHIFT_RIGHT_MASK, SHIFT_UP_MASK, STATIC_REFLECTIONS, STATIC_SAMPLES, TURN_DOWN_MASK,
    TURN_LEFT_MASK, TURN_RIGHT_MASK, TURN_UP_MASK,
};
use crate::keyboard::KeyCode;
use crate::scan::{PixelTask, RenderScan};

verus! {

/// The modes of the application.
#[derive(Debug, Clone, Copy, PartialEq, Eq, Structural)]
pub enum State {
    New,
    CameraControl,
    ScreenshotResolutionSelection,
    ScreenshotSamplingSelection,
    ScreenshotRenderBegin,
    ScreenshotRenderProceed,
    ScreenshotRenderEnd,
    ScreenshotRenderSave,
    ScreenshotRenderCancelRequested,
}

/// What the caller is to do on a tick.
#[derive(Debug, Clone, Copy, PartialEq, Eq, Structural)]
pub enum TickAction {
    /// Nothing to render: idle for a moment.
    Wait,
    /// Integrate the camera controls over the elapsed time, then call
    /// [`Director::prepare_frame`] and render one chunk.
    ControlCamera,
    /// A screenshot pass has begun at the screenshot resolution: take the
    /// camera's view for it and name the output file.
    ScreenshotBegun,
    /// Render one chunk of the screenshot pass.
    RenderScreenshot,
    /// The screenshot is complete: write it out, then call
    /// [`Director::screenshot_saved`].
    SaveScreenshot,
    /// The screenshot is done and the live resolution is back.
    ScreenshotFinished,
}

/// The control flag that `key` sets while held in camera control, or 0.
pub open spec fn control_mask(key: KeyCode) -> u32 {
    match key {
        KeyCode::KeyLeft => TURN_LEFT_MASK,
        KeyCode::KeyRight => TURN_RIGHT_MASK,
        KeyCode::KeyUp => TURN_DOWN_MASK,
        KeyCode::KeyDown => TURN_UP_MASK,
        KeyCode::KeyW => SHIFT_FORWARD_MASK,
        KeyCode::KeyS => SHIFT_BACK_MASK,
        KeyCode::KeyA => SHIFT_LEFT_MASK,
        KeyCode::KeyD => SHIFT_RIGHT_MASK,
        KeyCode::KeySpace => SHIFT_UP_MASK,
        KeyCode::KeyControl => SHIFT_DOWN_MASK,
        _ => 0,
    }
}

/// The table index that a digit key picks (key 1 picks the first entry).
pub open spec fn digit_index(key: KeyCode) -> Option<int> {
    match key {
        KeyCode::Key1 => Some(0),
        KeyCode::Key2 => Some(1),
        KeyCode::Key3 => Some(2),
        KeyCode::Key4 => Some(3),
        KeyCode::Key5 => Some(4),
        KeyCode::Key6 => Some(5),
        KeyCode::Key7 => Some(6),
        KeyCode::Key8 => Some(7),
        KeyCode::Key9 => Some(8),
        _ => None,
    }
}

/// Whether a key event changes anything in `state`.
pub open spec fn key_event_matters(state: State, key: KeyCode, is_pressed: bool) -> bool {
    match state {
        State::CameraControl => true,
        State::ScreenshotResolutionSelection | State::ScreenshotSamplingSelection => is_pressed
            && (digit_index(key) is Some || key == KeyCode::KeyEscape),
        State::ScreenshotRenderProceed => is_pressed && key == KeyCode::KeyEscape,
        State::ScreenshotRenderCancelRequested => is_pressed && (key == KeyCode::KeyY || key
            == KeyCode::KeyN),
        _ => false,
    }
}

/// The application state machine: it arbitrates between live camera
/// control and the screenshot workflow, keeps the live render's quality
/// within a frame-time band, and sizes each chunk of rendering work so that
/// a tick stays short. The tracing itself is the caller's: it performs the
/// work this machine hands out and reports the time it took.
pub struct Director {
    pub scan: RenderScan,
    pub state: State,
    pub control_flags: u32,
    /// Duration of the last completed live frame, in nanoseconds.
    pub frame_time_ns: u64,
    pub frame_time_accumulator_ns: u64,
    pub render_chunk_in_pixels: u32,
    pub screenshot_file_name: String,
    pub screenshot_width: u32,
    pub screenshot_height: u32,
    pub screenshot_samples: i32,
    /// Time spent on the screenshot pass so far, in nanoseconds.
    pub screenshot_elapsed_ns: u64,
    pub motion_dyn_samples: i32,
    pub prev_samples: i32,
    pub prev_in_motion: bool,
    pub window_width: u32,
    pub window_height: u32,
}

/// Whether the state is one of the screenshot workflow's states that hold
/// a chosen resolution.
pub open spec fn has_screenshot_size(state: State) -> bool {
    match state {
        State::ScreenshotSamplingSelection | State::ScreenshotRenderBegin
        | State::ScreenshotRenderProceed | State::ScreenshotRenderSave
        | State::ScreenshotRenderEnd | State::ScreenshotRenderCancelRequested => true,
        _ => false,
    }
}

/// Whether the state is one of the screenshot workflow's states that hold
/// a chosen sampling rate.
pub open spec fn has_screenshot_samples(state: State) -> bool {
    match state {
        State::ScreenshotRenderBegin | State::ScreenshotRenderProceed
        | State::ScreenshotRenderSave | State::ScreenshotRenderEnd
        | State::ScreenshotRenderCancelRequested => true,
        _ => false,
    }
}

/// `chunk * 2`, but no more than `cap` (and at least one).
pub open spec fn doubled_chunk(chunk: u32, cap: int) -> u32 {
    if chunk * 2 < cap {
        (chunk * 2) as u32
    } else if cap >= 1 {
        cap as u32
    } else {
        1
    }
}

/// The chunk size that follows `chunk` after a chunk that took `ms`
/// milliseconds, for an image of `total` pixels.
pub open spec fn next_chunk_size(chunk: u32, ms: int, total: int) -> u32 {
    if ms < MIN_CHUNK_RENDER_TIME_MS {
        doubled_chunk(chunk, total)
    } else if ms > MAX_CHUNK_RENDER_TIME_MS {
        if chunk / 2 > 1 {
            (chunk / 2) as u32
        } else {
            1
        }
    } else {
        chunk
    }
}

impl Director {
    /// The machine's invariant.
    pub open spec fn wf(&self) -> bool {
        &&& self.scan.wf()
        &&& self.render_chunk_in_pixels >= 1
        &&& MOTION_MAX_SAMPLES <= self.motion_dyn_samples <= MOTION_MIN_SAMPLES
        &&& self.window_width > 0
        &&& self.window_height > 0
        &&& self.window_width * self.window_height <= u32::MAX
        &&& (has_screenshot_size(self.state) ==> {
            &&& self.screenshot_width > 0
            &&& self.screenshot_height > 0
            &&& self.screenshot_width * self.screenshot_height <= u32::MAX
        })
        &&& (has_screenshot_samples(self.state) ==> self.screenshot_samples > 0)
        &&& ((self.state == State::ScreenshotRenderProceed || self.state
            == State::ScreenshotRenderCancelRequested) ==> self.scan.in_progress)
    }

    /// A machine in state `New`, with a 1 × 1 window and nothing rendered.
    pub fn new() -> (r: Director)
        ensures
            r.wf(),
            r.state == State::New,
            r.control_flags == 0,
            r.window_width == 1,
            r.window_height == 1,
            r.scan.image_width == 0,
            r.scan.image_height == 0,
            !r.scan.in_progress,
            r.frame_time_ns == 0,
            r.render_chunk_in_pixels == 1,
            r.motion_dyn_samples == MOTION_MIN_SAMPLES,
    {
        Director {
            scan: RenderScan::new(),
            state: State::New,
            control_flags: 0,
            frame_time_ns: 0,
            frame_time_accumulator_ns: 0,
            render_chunk_in_pixels: 1,
            screenshot_file_name: String::new(),
            screenshot_width: 0,
            screenshot_height: 0,
            screenshot_samples: 0,
            screenshot_elapsed_ns: 0,
            motion_dyn_samples: MOTION_MIN_SAMPLES,
            prev_samples: 0,
            prev_in_motion: false,
            window_width: 1,
            window_height: 1,
        }
    }

    /// Enters camera control once the scene is ready.
    pub fn init(&mut self)
        requires
            old(self).wf(),
        ensures
            final(self).wf(),
            final(self).state == State::CameraControl,
            final(self).scan == old(self).scan,
    {
        self.state = State::CameraControl;
    }

    /// Records the live window size. In state `New` or in camera control the
    /// render is resized to it at once (and camera control begins); during a
    /// screenshot it is applied when the screenshot ends.
    pub fn resize_image(&mut self, width: u32, height: u32)
        requires
            old(self).wf(),
            width > 0,
            height > 0,
            width * height <= u32::MAX,
        ensures
            final(self).wf(),
            final(self).window_width == width,
            final(self).window_height == height,
            (old(self).state == State::New || old(self).state == State::CameraControl) ==> {
                &&& final(self).state == State::CameraControl
                &&& final(self).scan.image_width == width
                &&& final(self).scan.image_height == height
                &&& !final(self).scan.in_progress
                &&& final(self).scan.additive_counter == 0
            },
            !(old(self).state == State::New || old(self).state == State::CameraControl) ==> {
                &&& final(self).state == old(self).state
                &&& final(self).scan == old(self).scan
            },
    {
        self.window_width = width;
        self.window_height = height;
        match self.state {
            State::New | State::CameraControl => {
                self.state = State::CameraControl;
                self.scan.resize_image(width, height);
            },
            _ => {},
        }
    }

    /// Reacts to a key going down (`is_pressed`) or up. In camera control a
    /// movement key sets or clears its control flag and F2 (pressed) opens
    /// the screenshot resolution choice; in the two choices a digit key picks
    /// an entry of the table and Escape goes back to camera control; while a
    /// screenshot renders Escape asks whether to cancel, and then Y cancels
    /// (restoring the live resolution) and N resumes. Any other key is
    /// ignored.
    #[verifier::spinoff_prover]
    pub fn handle_key_event(&mut self, key: KeyCode, is_pressed: bool)
        requires
            old(self).wf(),
        ensures
            final(self).wf(),
            !key_event_matters(old(self).state, key, is_pressed) ==> *final(self) == *old(self),
            final(self).window_width == old(self).window_width,
            final(self).window_height == old(self).window_height,
            old(self).state != State::CameraControl ==> final(self).control_flags
                == old(self).control_flags,
            old(self).state == State::CameraControl ==> {
                &&& final(self).control_flags == if is_pressed {
                    old(self).control_flags | control_mask(key)
                } else {
                    old(self).control_flags & !control_mask(key)
                }
                &&& final(self).state == if key == KeyCode::KeyF2 && is_pressed {
                    State::ScreenshotResolutionSelection
                } else {
                    State::CameraControl
                }
                &&& final(self).scan == old(self).scan
            },
            old(self).state == State::ScreenshotResolutionSelection && is_pressed ==> {
                &&& (digit_index(key) matches Some(i) ==> {
                    &&& final(self).state == State::ScreenshotSamplingSelection
                    &&& final(self).screenshot_width == resolution_width(i)
                    &&& final(self).screenshot_height == resolution_height(i)
                })
                &&& (key == KeyCode::KeyEscape ==> final(self).state == State::CameraControl)
                &&& final(self).scan == old(self).scan
            },
            old(self).state == State::ScreenshotSamplingSelection && is_pressed ==> {
                &&& (digit_index(key) matches Some(i) ==> {
                    &&& final(self).state == State::ScreenshotRenderBegin
                    &&& final(self).screenshot_samples == supersample_rate(i)
                    &&& final(self).screenshot_width == old(self).screenshot_width
                    &&& final(self).screenshot_height == old(self).screenshot_height
                })
                &&& (key == KeyCode::KeyEscape ==> final(self).state == State::CameraControl)
                &&& final(self).scan == old(self).scan
            },
            old(self).state == State::ScreenshotRenderProceed && is_pressed && key
                == KeyCode::KeyEscape ==> {
                &&& final(self).state == State::ScreenshotRenderCancelRequested
                &&& final(self).scan == old(self).scan
            },
            old(self).state == State::ScreenshotRenderCancelRequested && is_pressed && key
                == KeyCode::KeyN ==> {
                &&& final(self).state == State::ScreenshotRenderProceed
                &&& final(self).scan == old(self).scan
            },
            old(self).state == State::ScreenshotRenderCancelRequested && is_pressed && key
                == KeyCode::KeyY ==> {
                &&& final(self).state == State::CameraControl
                &&& final(self).scan.image_width == old(self).window_width
                &&& final(self).scan.image_height == old(self).window_height
                &&& !final(self).scan.in_progress
                &&& final(self).screenshot_width == 0
                &&& final(self).screenshot_height == 0
                &&& final(self).screenshot_samples == 0
            },
    {
        match self.state {
            State::CameraControl => {
                let mask = key_mask(key);
                let flags = if is_pressed {
                    self.control_flags | mask
                } else {
                    self.control_flags & !mask
                };
                let state = if key == KeyCode::KeyF2 && is_pressed {
                    State::ScreenshotResolutionSelection
                } else {
                    State::CameraControl
                };
                self.set_controls(flags, state);
            },
            State::ScreenshotResolutionSelection => {
                if is_pressed {
                    match key_digit(key) {
                        Some(index) => {
                            let (w, h) = resolution(index);
                            self.screenshot_width = w;
                            self.screenshot_height = h;
                            self.state = State::ScreenshotSamplingSelection;
                        },
                        None => {
                            if key == KeyCode::KeyEscape {
                                self.state = State::CameraControl;
                            }
                        },
                    }
                }
            },
            State::ScreenshotSamplingSelection => {
                if is_pressed {
                    match key_digit(key) {
                        Some(index) => {
                            self.screenshot_samples = sampling_rate(index);
                            self.state = State::ScreenshotRenderBegin;
                        },
                        None => {
                            if key == KeyCode::KeyEscape {
                                self.state = State::CameraControl;
                            }
                        },
                    }
                }
            },
            State::ScreenshotRenderProceed => {
                if is_pressed && key == KeyCode::KeyEscape {
                    self.state = State::ScreenshotRenderCancelRequested;
                }
            },
            State::ScreenshotRenderCancelRequested => {
                if is_pressed {
                    if key == KeyCode::KeyY {
                        self.clear_screenshot();
                        self.state = State::CameraControl;
                    } else if key == KeyCode::KeyN {
                        self.state = State::ScreenshotRenderProceed;
                    }
                }
            },
            _ => {},
        }
    }

    /// Whether the live view counts as moving: a control is held or the
    /// camera still drifts.
    pub open spec fn in_motion(&self, camera_moving: bool) -> bool {
        self.control_flags != 0 || camera_moving
    }

    /// Advances the machine by one tick, `elapsed_ns` after the previous
    /// one, and says what the caller is to do. Beginning a screenshot resizes
    /// the render to the chosen resolution and begins a non-additive pass
    /// with the screenshot reflection bound and the chosen sampling rate;
    /// ending one restores the live window resolution.
    pub fn tick(&mut self, elapsed_ns: u64) -> (r: TickAction)
        requires
            old(self).wf(),
        ensures
            final(self).wf(),
            final(self).control_flags == old(self).control_flags,
            final(self).window_width == old(self).window_width,
            final(self).window_height == old(self).window_height,
            match old(self).state {
                State::New | State::ScreenshotResolutionSelection
                | State::ScreenshotSamplingSelection => r == TickAction::Wait && *final(self)
                    == *old(self),
                State::CameraControl => r == TickAction::ControlCamera && *final(self)
                    == *old(self),
                State::ScreenshotRenderBegin => {
                    &&& r == TickAction::ScreenshotBegun
                    &&& final(self).state == State::ScreenshotRenderProceed
                    &&& final(self).scan.image_width == old(self).screenshot_width
                    &&& final(self).scan.image_height == old(self).screenshot_height
                    &&& final(self).scan.in_progress
                    &&& final(self).scan.completed() == 0
                    &&& final(self).scan.samples == old(self).screenshot_samples
                    &&& final(self).scan.max_reflections == SCREENSHOT_REFLECTIONS
                    &&& !final(self).scan.is_additive
                    &&& final(self).render_chunk_in_pixels == 1
                    &&& final(self).screenshot_elapsed_ns == 0
                },
                State::ScreenshotRenderProceed | State::ScreenshotRenderCancelRequested => {
                    &&& r == TickAction::RenderScreenshot
                    &&& final(self).state == old(self).state
                    &&& final(self).scan == old(self).scan
                    &&& final(self).screenshot_elapsed_ns == if old(self).screenshot_elapsed_ns
                        + elapsed_ns <= u64::MAX {
                        old(self).screenshot_elapsed_ns + elapsed_ns
                    } else {
                        u64::MAX as int
                    }
                },
                State::ScreenshotRenderSave => r == TickAction::SaveScreenshot && *final(self)
                    == *old(self),
                State::ScreenshotRenderEnd => {
                    &&& r == TickAction::ScreenshotFinished
                    &&& final(self).state == State::CameraControl
                    &&& final(self).scan.image_width == old(self).window_width
                    &&& final(self).scan.image_height == old(self).window_height
                    &&& !final(self).scan.in_progress
                    &&& final(self).screenshot_width == 0
                    &&& final(self).screenshot_height == 0
                    &&& final(self).screenshot_samples == 0
                },
            },
    {
        match self.state {
            State::New | State::ScreenshotResolutionSelection
            | State::ScreenshotSamplingSelection => TickAction::Wait,
            State::CameraControl => TickAction::ControlCamera,
            State::ScreenshotRenderBegin => {
                self.scan.resize_image(self.screenshot_width, self.screenshot_height);
                self.screenshot_elapsed_ns = 0;
                self.scan.begin_render(SCREENSHOT_REFLECTIONS, self.screenshot_samples, false);
                self.render_chunk_in_pixels = 1;
                self.state = State::ScreenshotRenderProceed;
                TickAction::ScreenshotBegun
            },
            State::ScreenshotRenderProceed | State::ScreenshotRenderCancelRequested => {
                self.screenshot_elapsed_ns = self.screenshot_elapsed_ns.saturating_add(elapsed_ns);
                TickAction::RenderScreenshot
            },
            State::ScreenshotRenderSave => TickAction::SaveScreenshot,
            State::ScreenshotRenderEnd => {
                self.clear_screenshot();
                self.state = State::CameraControl;
                TickAction::ScreenshotFinished
            },
        }
    }

    /// Decides, in camera control, whether a new live pass begins before the
    /// next chunk: when the last one is complete, or when the view moves and
    /// the downsampling factor has changed since the pass began. A moving
    /// view first steps that factor one toward coarser if the last frame took
    /// longer than the upper frame-time bound, or one toward finer if it took
    /// less than the lower one. The pass is a motion pass (few reflections,
    /// the downsampling factor) when the view moves now or moved at the
    /// previous decision, and an additive still pass otherwise. Returns
    /// whether a pass began.
    pub fn prepare_frame(&mut self, camera_moving: bool) -> (r: bool)
        requires
            old(self).wf(),
            old(self).state == State::CameraControl,
            old(self).scan.image_width > 0,
            old(self).scan.image_height > 0,
        ensures
            final(self).wf(),
            final(self).state == State::CameraControl,
            final(self).scan.in_progress,
            final(self).control_flags == old(self).control_flags,
            final(self).scan.image_width == old(self).scan.image_width,
            final(self).scan.image_height == old(self).scan.image_height,
            r == (!old(self).scan.in_progress || (old(self).in_motion(camera_moving)
                && old(self).motion_dyn_samples != old(self).prev_samples)),
            !r ==> *final(self) == *old(self),
            r ==> {
                let moving = old(self).in_motion(camera_moving);
                let motion_pass = moving || old(self).prev_in_motion;
                &&& final(self).motion_dyn_samples == if !moving {
                    old(self).motion_dyn_samples as int
                } else if old(self).frame_time_ns > MAX_MOTION_FRAME_TIME_NS {
                    if old(self).motion_dyn_samples - 1 > MOTION_MAX_SAMPLES {
                        old(self).motion_dyn_samples - 1
                    } else {
                        MOTION_MAX_SAMPLES as int
                    }
                } else if old(self).frame_time_ns < MIN_MOTION_FRAME_TIME_NS {
                    if old(self).motion_dyn_samples + 1 < MOTION_MIN_SAMPLES {
                        old(self).motion_dyn_samples + 1
                    } else {
                        MOTION_MIN_SAMPLES as int
                    }
                } else {
                    old(self).motion_dyn_samples as int
                }
                &&& final(self).scan.completed() == 0
                &&& final(self).scan.max_reflections == if motion_pass {
                    MOTION_REFLECTIONS
                } else {
                    STATIC_REFLECTIONS
                }
                &&& final(self).scan.samples == if motion_pass {
                    final(self).motion_dyn_samples
                } else {
                    STATIC_SAMPLES
                }
                &&& final(self).scan.is_additive == !motion_pass
                &&& final(self).scan.additive_counter == if motion_pass {
                    0
                } else if old(self).scan.additive_counter < i32::MAX {
                    old(self).scan.additive_counter + 1
                } else {
                    old(self).scan.additive_counter as int
                }
                &&& final(self).render_chunk_in_pixels == 1
                &&& final(self).prev_samples == final(self).scan.samples
                &&& final(self).prev_in_motion == moving
            },
    {
        let moving = self.control_flags != 0 || camera_moving;
        if self.scan.in_progress && !(moving && self.motion_dyn_samples != self.prev_samples) {
            return false;
        }
        if moving {
            if self.frame_time_ns > MAX_MOTION_FRAME_TIME_NS {
                self.motion_dyn_samples = if self.motion_dyn_samples - 1 > MOTION_MAX_SAMPLES {
                    self.motion_dyn_samples - 1
                } else {
                    MOTION_MAX_SAMPLES
                };
            } else if self.frame_time_ns < MIN_MOTION_FRAME_TIME_NS {
                self.motion_dyn_samples = if self.motion_dyn_samples + 1 < MOTION_MIN_SAMPLES {
                    self.motion_dyn_samples + 1
                } else {
                    MOTION_MIN_SAMPLES
                };
            }
        }
        let motion_pass = moving || self.prev_in_motion;
        let reflections = if motion_pass {
            MOTION_REFLECTIONS
        } else {
            STATIC_REFLECTIONS
        };
        let samples = if motion_pass {
            self.motion_dyn_samples
        } else {
            STATIC_SAMPLES
        };
        self.scan.begin_render(reflections, samples, !motion_pass);
        self.render_chunk_in_pixels = 1;
        self.prev_samples = samples;
        self.prev_in_motion = moving;
        true
    }

    /// Moves the pass in progress on by one chunk and returns the work for
    /// the pixels passed, as [`RenderScan::render`] does. A screenshot pass
    /// that this completes moves the machine on to saving it.
    pub fn next_chunk(&mut self) -> (r: Vec<PixelTask>)
        requires
            old(self).wf(),
            old(self).scan.in_progress,
            old(self).state == State::CameraControl || old(self).state
                == State::ScreenshotRenderProceed || old(self).state
                == State::ScreenshotRenderCancelRequested,
        ensures
            final(self).wf(),
            final(self).state == if old(self).state != State::CameraControl
                && !final(self).scan.in_progress {
                State::ScreenshotRenderSave
            } else {
                old(self).state
            },
            final(self).render_chunk_in_pixels == old(self).render_chunk_in_pixels,
            final(self).scan.completed() == if old(self).scan.completed()
                + old(self).render_chunk_in_pixels < old(self).scan.total() {
                old(self).scan.completed() + old(self).render_chunk_in_pixels
            } else {
                old(self).scan.total()
            },
            final(self).scan.in_progress <==> final(self).scan.completed()
                < final(self).scan.total(),
            r@ == old(self).scan.tasks_between(
                old(self).scan.completed(),
                final(self).scan.completed(),
            ),
            final(self).scan.image_width == old(self).scan.image_width,
            final(self).scan.image_height == old(self).scan.image_height,
            final(self).scan.samples == old(self).scan.samples,
            final(self).scan.additive_counter == old(self).scan.additive_counter,
    {
        let (tasks, in_progress) = self.scan.render(self.render_chunk_in_pixels);
        if !in_progress && self.state != State::CameraControl {
            self.state = State::ScreenshotRenderSave;
        }
        tasks
    }

    /// Records that the caller finished the work of the last chunk in
    /// `elapsed_ns` nanoseconds, and returns whether the pass is complete.
    /// While a live pass goes on, and always during a screenshot, the next
    /// chunk doubles (up to the whole image) after a chunk faster than the
    /// lower bound and halves (down to one pixel) after one slower than the
    /// upper bound. A complete live pass fixes the frame time to the time its
    /// chunks took.
    pub fn chunk_done(&mut self, elapsed_ns: u64) -> (r: bool)
        requires
            old(self).wf(),
        ensures
            final(self).wf(),
            r == !old(self).scan.in_progress,
            final(self).state == old(self).state,
            final(self).scan == old(self).scan,
            final(self).control_flags == old(self).control_flags,
            final(self).render_chunk_in_pixels == if old(self).state == State::CameraControl
                && r {
                old(self).render_chunk_in_pixels
            } else {
                next_chunk_size(
                    old(self).render_chunk_in_pixels,
                    elapsed_ns as int / 1_000_000,
                    old(self).scan.total(),
                )
            },
            old(self).state == State::CameraControl ==> {
                let acc = if old(self).frame_time_accumulator_ns + elapsed_ns <= u64::MAX {
                    old(self).frame_time_accumulator_ns + elapsed_ns
                } else {
                    u64::MAX as int
                };
                &&& r ==> final(self).frame_time_ns == acc
                    && final(self).frame_time_accumulator_ns == 0
                &&& !r ==> final(self).frame_time_ns == old(self).frame_time_ns
                    && final(self).frame_time_accumulator_ns == acc
            },
    {
        let complete = !self.scan.in_progress;
        let live = self.state == State::CameraControl;
        if live {
            self.frame_time_accumulator_ns = self.frame_time_accumulator_ns.saturating_add(
                elapsed_ns,
            );
        }
        if live && complete {
            self.frame_time_ns = self.frame_time_accumulator_ns;
            self.frame_time_accumulator_ns = 0;
        } else {
            let ms: u64 = elapsed_ns / 1_000_000;
            let chunk = self.render_chunk_in_pixels;
            if ms < MIN_CHUNK_RENDER_TIME_MS {
                let total: u64 = self.scan.image_width as u64 * self.scan.image_height as u64;
                let doubled: u64 = chunk as u64 * 2;
                self.render_chunk_in_pixels = if doubled < total {
                    doubled as u32
                } else {
                    total as u32
                };
                if self.render_chunk_in_pixels == 0 {
                    self.render_chunk_in_pixels = 1;
                }
            } else if ms > MAX_CHUNK_RENDER_TIME_MS {
                self.render_chunk_in_pixels = if chunk / 2 > 1 {
                    chunk / 2
                } else {
                    1
                };
            }
        }
        complete
    }

    /// Records that the finished screenshot has been written out; the next
    /// tick ends the screenshot.
    pub fn screenshot_saved(&mut self)
        requires
            old(self).wf(),
            old(self).state == State::ScreenshotRenderSave,
        ensures
            final(self).wf(),
            *final(self) == (Director { state: State::ScreenshotRenderEnd, ..*old(self) }),
    {
        self.state = State::ScreenshotRenderEnd;
    }

    /// Names the file that the screenshot in progress is written to.
    pub fn set_screenshot_file_name(&mut self, name: String)
        requires
            old(self).wf(),
        ensures
            final(self).wf(),
            final(self).screenshot_file_name@ == name@,
            final(self).state == old(self).state,
            final(self).scan == old(self).scan,
    {
        self.screenshot_file_name = name;
    }

    /// Sets the control flags and the state, in camera control.
    fn set_controls(&mut self, flags: u32, state: State)
        requires
            old(self).wf(),
            old(self).state == State::CameraControl,
            state == State::CameraControl || state == State::ScreenshotResolutionSelection,
        ensures
            final(self).wf(),
            *final(self) == (Director { control_flags: flags, state, ..*old(self) }),
    {
        self.control_flags = flags;
        self.state = state;
    }

    /// Forgets the screenshot's settings and brings back the live window
    /// resolution.
    fn clear_screenshot(&mut self)
        requires
            old(self).wf(),
        ensures
            final(self).scan.image_width == old(self).window_width,
            final(self).scan.image_height == old(self).window_height,
            !final(self).scan.in_progress,
            final(self).scan.wf(),
            final(self).screenshot_width == 0,
            final(self).screenshot_height == 0,
            final(self).screenshot_samples == 0,
            final(self).screenshot_elapsed_ns == 0,
            final(self).state == old(self).state,
            final(self).control_flags == old(self).control_flags,
            final(self).render_chunk_in_pixels == old(self).render_chunk_in_pixels,
            final(self).motion_dyn_samples == old(self).motion_dyn_samples,
            final(self).window_width == old(self).window_width,
            final(self).window_height == old(self).window_height,
    {
        self.screenshot_width = 0;
        self.screenshot_height = 0;
        self.screenshot_samples = 0;
        self.screenshot_elapsed_ns = 0;
        self.scan.resize_image(self.window_width, self.window_height);
    }
}

/// The control flag that `key` sets.
fn key_mask(key: KeyCode) -> (r: u32)
    ensures
        r == control_mask(key),
{
    match key {
        KeyCode::KeyLeft => TURN_LEFT_MASK,
        KeyCode::KeyRight => TURN_RIGHT_MASK,
        KeyCode::KeyUp => TURN_DOWN_MASK,
        KeyCode::KeyDown => TURN_UP_MASK,
        KeyCode::KeyW => SHIFT_FORWARD_MASK,
        KeyCode::KeyS => SHIFT_BACK_MASK,
        KeyCode::KeyA => SHIFT_LEFT_MASK,
        KeyCode::KeyD => SHIFT_RIGHT_MASK,
        KeyCode::KeySpace => SHIFT_UP_MASK,
        KeyCode::KeyControl => SHIFT_DOWN_MASK,
        _ => 0,
    }
}

/// The table index that a digit key picks.
fn key_digit(key: KeyCode) -> (r: Option<usize>)
    ensures
        r matches Some(i) ==> digit_index(key) == Some(i as int) && i < 9,
        r is None ==> digit_index(key) is None,
{
    match key {
        KeyCode::Key1 => Some(0),
        KeyCode::Key2 => Some(1),
        KeyCode::Key3 => Some(2),
        KeyCode::Key4 => Some(3),
        KeyCode::Key5 => Some(4),
        KeyCode::Key6 => Some(5),
        KeyCode::Key7 => Some(6),
        KeyCode::Key8 => Some(7),
        KeyCode::Key9 => Some(8),
        _ => None,
    }
}

} // verus!
