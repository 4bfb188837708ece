use vstd::prelude::*;
use vstd::string::StringExecFns;

use crate::config::{
    resolution, resolution_height, resolution_tip, resolution_tip_text, resolution_width,
    sampling_rate, sampling_tip, sampling_tip_text, supersample_rate, SCREENSHOT_OPTIONS,
};
use crate::director::{Director, State};
use crate::text::{decimal, push_digits, push_padded, zero_padded};

verus! {

/// `"<a>x<b>"`.
pub open spec fn pair_text(a: nat, b: nat) -> Seq<char> {
    decimal(a) + "x"@ + decimal(b)
}

/// Line `index` of the resolution choice.
pub open spec fn resolution_option_line(index: int) -> Seq<char> {
    decimal((index + 1) as nat) + " : "@ + pair_text(
        resolution_width(index) as nat,
        resolution_height(index) as nat,
    ) + " "@ + resolution_tip_text(index)
}

/// Line `index` of the sampling-rate choice.
pub open spec fn sampling_option_line(index: int) -> Seq<char> {
    decimal((index + 1) as nat) + " : "@ + pair_text(
        supersample_rate(index) as nat,
        supersample_rate(index) as nat,
    ) + " "@ + sampling_tip_text(index)
}

/// `ns` nanoseconds, rounded to milliseconds.
pub open spec fn rounded_ms(ns: nat) -> nat {
    (ns + 500_000) / 1_000_000
}

/// The frame-time line: whole milliseconds below ten seconds, seconds with
/// three decimals from then on.
pub open spec fn frame_time_line(ns: nat) -> Seq<char> {
    let ms = rounded_ms(ns);
    if ns < 10_000_000_000 {
        "Frame time: "@ + decimal(ms) + " ms"@
    } else {
        "Frame time: "@ + decimal(ms / 1000) + "."@ + zero_padded(decimal(ms % 1000), 3)
            + " s"@
    }
}

/// The progress line, from a progress in hundredths of a percent.
pub open spec fn progress_line(basis_points: nat) -> Seq<char> {
    "Progress: "@ + decimal(basis_points / 100) + "."@ + zero_padded(
        decimal(basis_points % 100),
        2,
    ) + " %"@
}

/// The line that estimates the time left, from a number of seconds.
pub open spec fn time_left_line(secs: nat) -> Seq<char> {
    "Estimated time left: "@ + decimal(secs / 3600) + " h "@ + zero_padded(
        decimal(secs % 3600 / 60),
        2,
    ) + " m "@ + zero_padded(decimal(secs % 60), 2) + " s"@
}

/// Whether the state shows the progress of a screenshot pass.
pub open spec fn shows_progress(state: State) -> bool {
    state == State::ScreenshotRenderProceed || state == State::ScreenshotRenderCancelRequested
        || state == State::ScreenshotRenderSave
}

/// Appends `"<a>x<b>"` to `out`.
fn push_pair(out: &mut String, a: u128, b: u128)
    ensures
        final(out)@ == old(out)@ + pair_text(a as nat, b as nat),
{
    push_digits(out, a, 10);
    out.append("x");
    push_digits(out, b, 10);
    assert(out@ =~= old(out)@ + pair_text(a as nat, b as nat));
}

/// The frame-time line for a frame of `ns` nanoseconds.
fn frame_time_text(ns: u64) -> (r: String)
    ensures
        r@ == frame_time_line(ns as nat),
{
    let ms: u64 = ns / 1_000_000 + if ns % 1_000_000 >= 500_000 {
        1
    } else {
        0
    };
    assert(ms == rounded_ms(ns as nat));
    let mut l = String::from_str("Frame time: ");
    if ns < 10_000_000_000 {
        push_digits(&mut l, ms as u128, 10);
        l.append(" ms");
    } else {
        push_digits(&mut l, (ms / 1000) as u128, 10);
        l.append(".");
        push_padded(&mut l, (ms % 1000) as u128, 10, 3);
        l.append(" s");
    }
    assert(l@ =~= frame_time_line(ns as nat));
    l
}

/// Line `index` of the resolution choice.
fn resolution_option_text(index: usize) -> (r: String)
    requires
        index < SCREENSHOT_OPTIONS,
    ensures
        r@ == resolution_option_line(index as int),
{
    let (w, h) = resolution(index);
    let mut l = String::new();
    push_digits(&mut l, (index + 1) as u128, 10);
    l.append(" : ");
    push_pair(&mut l, w as u128, h as u128);
    l.append(" ");
    l.append(resolution_tip(index));
    assert(l@ =~= resolution_option_line(index as int));
    l
}

/// Line `index` of the sampling-rate choice.
fn sampling_option_text(index: usize) -> (r: String)
    requires
        index < SCREENSHOT_OPTIONS,
    ensures
        r@ == sampling_option_line(index as int),
{
    let rate = sampling_rate(index);
    let mut l = String::new();
    push_digits(&mut l, (index + 1) as u128, 10);
    l.append(" : ");
    push_pair(&mut l, rate as u128, rate as u128);
    l.append(" ");
    l.append(sampling_tip(index));
    assert(l@ =~= sampling_option_line(index as int));
    l
}

/// The progress line for `bp` hundredths of a percent.
fn progress_text(bp: u64) -> (r: String)
    ensures
        r@ == progress_line(bp as nat),
{
    let mut l = String::from_str("Progress: ");
    push_digits(&mut l, (bp / 100) as u128, 10);
    l.append(".");
    push_padded(&mut l, (bp % 100) as u128, 10, 2);
    l.append(" %");
    assert(l@ =~= progress_line(bp as nat));
    l
}

/// The time-left line for `secs` seconds.
fn time_left_text(secs: u128) -> (r: String)
    ensures
        r@ == time_left_line(secs as nat),
{
    let mut l = String::from_str("Estimated time left: ");
    push_digits(&mut l, secs / 3600, 10);
    l.append(" h ");
    push_padded(&mut l, secs % 3600 / 60, 10, 2);
    l.append(" m ");
    push_padded(&mut l, secs % 60, 10, 2);
    l.append(" s");
    assert(l@ =~= time_left_line(secs as nat));
    l
}

impl Director {
    /// Whether the state shows the progress of a screenshot pass.
    fn state_shows_progress(&self) -> (r: bool)
        ensures
            r == shows_progress(self.state),
    {
        self.state == State::ScreenshotRenderProceed || self.state
            == State::ScreenshotRenderCancelRequested || self.state == State::ScreenshotRenderSave
    }

    /// Progress of the screenshot pass in hundredths of a percent.
    pub fn screenshot_progress_bp(&self) -> (r: u64)
        requires
            self.wf(),
        ensures
            r == self.progress_bp(),
            r <= 10000,
    {
        let total: u64 = self.scan.image_width as u64 * self.scan.image_height as u64;
        if self.state_shows_progress() && total > 0 {
            let done = self.scan.completed_pixels();
            assert(done * 10000 <= total * 10000);
            assert((done * 10000) as int / total as int <= 10000) by (nonlinear_arith)
                requires
                    done <= total,
                    total > 0,
            ;
            done * 10000 / total
        } else {
            0
        }
    }

    /// Seconds that the screenshot pass still needs at the pace so far.
    fn screenshot_time_left_secs(&self) -> (r: u128)
        requires
            self.wf(),
            self.scan.completed() > 0,
        ensures
            r == self.time_left_secs(),
    {
        let done = self.scan.completed_pixels();
        let total: u64 = self.scan.image_width as u64 * self.scan.image_height as u64;
        let rest: u64 = total - done;
        assert(self.screenshot_elapsed_ns as u128 * rest as u128 <= u64::MAX as u128
            * u64::MAX as u128) by (nonlinear_arith)
            requires
                self.screenshot_elapsed_ns <= u64::MAX,
                rest <= u64::MAX,
        ;
        self.screenshot_elapsed_ns as u128 * rest as u128 / done as u128 / 1_000_000_000
    }

    /// Progress of the screenshot pass in hundredths of a percent.
    pub open spec fn progress_bp(&self) -> nat {
        if shows_progress(self.state) && self.scan.total() > 0 {
            (self.scan.completed() * 10000 / self.scan.total()) as nat
        } else {
            0
        }
    }

    /// Seconds that the screenshot pass still needs at the pace so far.
    pub open spec fn time_left_secs(&self) -> nat {
        (self.screenshot_elapsed_ns * (self.scan.total() - self.scan.completed())
            / self.scan.completed() / 1_000_000_000) as nat
    }

    /// Whether the estimate of the time left is shown.
    pub open spec fn shows_time_left(&self) -> bool {
        shows_progress(self.state) && self.scan.completed() > 0
    }

    /// The status text of each state, line by line.
    pub open spec fn screen_text(&self) -> Seq<Seq<char>> {
        match self.state {
            State::New => Seq::empty(),
            State::CameraControl => seq![
                "Resolution : "@ + pair_text(
                    self.scan.image_width as nat,
                    self.scan.image_height as nat,
                ),
                frame_time_line(self.frame_time_ns as nat),
                "Blended frames : "@ + decimal(self.scan.additive_counter as nat),
                " "@,
                "WSAD : move"@,
                "Cursor keys: turn"@,
                "Space : ascent"@,
                "Ctrl : descent"@,
                " "@,
                "F2 : save screenshot"@,
            ],
            State::ScreenshotResolutionSelection => seq![
                "Select screenshot resolution (keys 1-9)"@,
                " "@,
            ] + Seq::new(9, |i: int| resolution_option_line(i)) + seq![" "@, "ESC : cancel"@],
            State::ScreenshotSamplingSelection => seq![
                "Select supersampling rate (keys 1-9)"@,
                " "@,
            ] + Seq::new(9, |i: int| sampling_option_line(i)) + seq![" "@, "ESC : cancel"@],
            _ => seq![
                "Saving screenshot:"@,
                self.screenshot_file_name@,
                "Resolution: "@ + pair_text(
                    self.screenshot_width as nat,
                    self.screenshot_height as nat,
                ),
                "SSAA: "@ + pair_text(
                    self.screenshot_samples as nat,
                    self.screenshot_samples as nat,
                ),
                ""@,
                progress_line(self.progress_bp()),
            ] + (if self.shows_time_left() {
                seq![time_left_line(self.time_left_secs()), ""@]
            } else {
                Seq::empty()
            }) + seq![
                if self.state == State::ScreenshotRenderCancelRequested {
                    "Do you want to cancel ? ( Y / N ) "@
                } else {
                    "Press ESC to cancel"@
                },
            ],
        }
    }

    /// The status text to show over the image, line by line.
    pub fn get_current_screen_text(&self) -> (r: Vec<String>)
        requires
            self.wf(),
        ensures
            r@.len() == self.screen_text().len(),
            r@.map_values(|l: String| l@) == self.screen_text(),
    {
        let mut lines: Vec<String> = Vec::new();
        match self.state {
            State::New => {
                assert(lines@.map_values(|l: String| l@) =~= self.screen_text());
            },
            State::CameraControl => {
                let mut l = String::from_str("Resolution : ");
                push_pair(&mut l, self.scan.image_width as u128, self.scan.image_height as u128);
                lines.push(l);
                lines.push(frame_time_text(self.frame_time_ns));
                let mut l = String::from_str("Blended frames : ");
                push_digits(&mut l, self.scan.additive_counter as u128, 10);
                lines.push(l);
                lines.push(String::from_str(" "));
                lines.push(String::from_str("WSAD : move"));
                lines.push(String::from_str("Cursor keys: turn"));
                lines.push(String::from_str("Space : ascent"));
                lines.push(String::from_str("Ctrl : descent"));
                lines.push(String::from_str(" "));
                lines.push(String::from_str("F2 : save screenshot"));
                assert(lines@.map_values(|l: String| l@) =~= self.screen_text());
            },
            State::ScreenshotResolutionSelection | State::ScreenshotSamplingSelection => {
                let resolutions = self.state == State::ScreenshotResolutionSelection;
                lines.push(
                    if resolutions {
                        String::from_str("Select screenshot resolution (keys 1-9)")
                    } else {
                        String::from_str("Select supersampling rate (keys 1-9)")
                    },
                );
                lines.push(String::from_str(" "));
                let mut i: usize = 0;
                while i < SCREENSHOT_OPTIONS
                    invariant
                        i <= SCREENSHOT_OPTIONS,
                        lines@.len() == 2 + i,
                        resolutions == (self.state == State::ScreenshotResolutionSelection),
                        self.state == State::ScreenshotResolutionSelection || self.state
                            == State::ScreenshotSamplingSelection,
                        lines@.map_values(|l: String| l@) =~= self.screen_text().subrange(
                            0,
                            2 + i as int,
                        ),
                    decreases SCREENSHOT_OPTIONS - i,
                {
                    let l = if resolutions {
                        resolution_option_text(i)
                    } else {
                        sampling_option_text(i)
                    };
                    lines.push(l);
                    i = i + 1;
                }
                let ghost head = lines@.map_values(|l: String| l@);
                assert(self.screen_text().len() == 13);
                assert(head =~= self.screen_text().subrange(0, 11));
                lines.push(String::from_str(" "));
                lines.push(String::from_str("ESC : cancel"));
                assert(lines@.map_values(|l: String| l@) =~= head + seq![" "@, "ESC : cancel"@]);
                assert(self.screen_text() =~= self.screen_text().subrange(0, 11) + seq![
                    " "@,
                    "ESC : cancel"@,
                ]);
                assert(lines@.map_values(|l: String| l@) =~= self.screen_text());
            },
            _ => {
                lines.push(String::from_str("Saving screenshot:"));
                lines.push(self.screenshot_file_name.clone());
                let mut l = String::from_str("Resolution: ");
                push_pair(&mut l, self.screenshot_width as u128, self.screenshot_height as u128);
                lines.push(l);
                let mut l = String::from_str("SSAA: ");
                push_pair(&mut l, self.screenshot_samples as u128, self.screenshot_samples as u128);
                lines.push(l);
                lines.push(String::from_str(""));
                lines.push(progress_text(self.screenshot_progress_bp()));
                if self.state_shows_progress() && self.scan.completed_pixels() > 0 {
                    lines.push(time_left_text(self.screenshot_time_left_secs()));
                    lines.push(String::from_str(""));
                }
                if self.state == State::ScreenshotRenderCancelRequested {
                    lines.push(String::from_str("Do you want to cancel ? ( Y / N ) "));
                } else {
                    lines.push(String::from_str("Press ESC to cancel"));
                }
                assert(lines@.map_values(|l: String| l@) =~= self.screen_text());
            },
        }
        lines
    }
}

} // verus!
