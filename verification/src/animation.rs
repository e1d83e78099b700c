//! Frame counting for the progress screen's animations: arrows, spinner,
//! and the swaying bamboo.
use vstd::prelude::*;
use crate::text::push_char;

verus! {

/// Number of bamboo frames.
pub const BAMBOO_FRAME_COUNT: usize = 6;

/// Frames after which the bamboo moves on to its next frame.
pub const BAMBOO_FRAME_TICKS: usize = 20;

/// The three lines, six characters each, of bamboo frame `i` (`i < 6`):
/// upright, leaning right in two steps, upright, leaning left in two steps.
pub open spec fn bamboo_art(i: int) -> Seq<Seq<char>> {
    if i == 0 || i == 3 {
        seq![" \\|/  "@, "  |   "@, "  |   "@]
    } else if i == 1 {
        seq!["  \\|/ "@, "  |   "@, "  |   "@]
    } else if i == 2 {
        seq!["   \\|/"@, "   |  "@, "  |   "@]
    } else if i == 4 {
        seq!["\\|/   "@, "  |   "@, "  |   "@]
    } else {
        seq!["\\|/   "@, " |    "@, "  |   "@]
    }
}

/// Whether `lines` are the lines of bamboo frame `i`.
pub open spec fn shows_bamboo(lines: Seq<&'static str>, i: int) -> bool {
    &&& lines.len() == 3
    &&& forall|j: int| 0 <= j < 3 ==> (#[trigger] lines[j])@ == bamboo_art(i)[j]
}

/// Bamboo frame shown at animation frame `frame`.
pub open spec fn bamboo_index(frame: int) -> int {
    (frame / 20) % 6
}

/// The bamboo animation repeats every six bamboo frames: frame `f` and frame
/// `f + 120` show the same bamboo.
pub proof fn lemma_bamboo_cycle(frame: int)
    requires
        frame >= 0,
    ensures
        bamboo_index(frame + 120) == bamboo_index(frame),
{
    assert((frame + 120) / 20 == frame / 20 + 6);
}

/// The bamboo moves on by one frame every twenty animation frames.
pub proof fn lemma_bamboo_advances(frame: int)
    requires
        frame >= 0,
    ensures
        bamboo_index(frame + 20) == (bamboo_index(frame) + 1) % 6,
{
    assert((frame + 20) / 20 == frame / 20 + 1);
}

/// Lines of bamboo frame `i`.
pub fn bamboo_frame(i: usize) -> (r: Vec<&'static str>)
    requires
        i < BAMBOO_FRAME_COUNT,
    ensures
        shows_bamboo(r@, i as int),
{
    let r = if i == 0 || i == 3 {
        vec![" \\|/  ", "  |   ", "  |   "]
    } else if i == 1 {
        vec!["  \\|/ ", "  |   ", "  |   "]
    } else if i == 2 {
        vec!["   \\|/", "   |  ", "  |   "]
    } else if i == 4 {
        vec!["\\|/   ", "  |   ", "  |   "]
    } else {
        vec!["\\|/   ", " |    ", "  |   "]
    };
    assert forall|j: int| 0 <= j < 3 implies (#[trigger] r@[j])@ == bamboo_art(i as int)[j] by {}
    r
}

/// All bamboo frames, in order.
pub fn bamboo_frames() -> (r: Vec<Vec<&'static str>>)
    ensures
        r.len() == BAMBOO_FRAME_COUNT,
        forall|i: int| 0 <= i < 6 ==> shows_bamboo((#[trigger] r@[i])@, i),
{
    let mut r: Vec<Vec<&'static str>> = Vec::new();
    let mut i: usize = 0;
    while i < BAMBOO_FRAME_COUNT
        invariant
            i <= BAMBOO_FRAME_COUNT,
            r.len() == i,
            forall|k: int| 0 <= k < i ==> shows_bamboo((#[trigger] r@[k])@, k),
        decreases BAMBOO_FRAME_COUNT - i,
    {
        r.push(bamboo_frame(i));
        i = i + 1;
    }
    r
}

/// Animation controller for frame-based animations.
pub struct AnimationController {
    frame: usize,
    fps: usize,
}

impl AnimationController {
    /// The current frame number.
    pub closed spec fn frame_count(self) -> nat {
        self.frame as nat
    }

    /// Frames per second.
    pub closed spec fn rate(self) -> nat {
        self.fps as nat
    }

    /// Frames stay below ten seconds' worth, so that counting on never
    /// overflows.
    #[verifier::type_invariant]
    closed spec fn counts_below_period(self) -> bool {
        self.frame == 0 || self.frame < self.fps * 10
    }

    /// Create a new animation controller at frame zero.
    pub fn new(fps: usize) -> (r: Self)
        ensures
            r.frame_count() == 0,
            r.rate() == fps,
    {
        AnimationController { frame: 0, fps }
    }

    /// Advance to the next frame, looping every ten seconds.
    pub fn tick(&mut self)
        requires
            old(self).rate() > 0,
            old(self).rate() * 10 <= usize::MAX,
        ensures
            final(self).frame_count() == (old(self).frame_count() + 1) % (old(self).rate() * 10),
            final(self).rate() == old(self).rate(),
    {
        proof {
            use_type_invariant(&*self);
        }
        let period = self.fps * 10;
        self.frame = (self.frame + 1) % period;
    }

    /// Get the current frame number.
    pub fn frame(&self) -> (r: usize)
        ensures
            r == self.frame_count(),
    {
        self.frame
    }

    /// Animated arrow character for progress: `▸` or `▹`, changing every
    /// three frames.
    pub fn arrow_char(&self) -> (r: &'static str)
        ensures
            r@ == (if (self.frame_count() / 3) % 3 == 1 { "▹"@ } else { "▸"@ }),
    {
        match (self.frame / 3) % 3 {
            0 => "▸",
            1 => "▹",
            _ => "▸",
        }
    }

    /// Braille spinner character, changing every eight frames.
    pub fn spinner_char(&self) -> (r: &'static str)
        ensures
            r@ == (if (self.frame_count() / 8) % 4 == 0 {
                "⠋"@
            } else if (self.frame_count() / 8) % 4 == 1 {
                "⠙"@
            } else if (self.frame_count() / 8) % 4 == 2 {
                "⠹"@
            } else {
                "⠸"@
            }),
    {
        match (self.frame / 8) % 4 {
            0 => "⠋",
            1 => "⠙",
            2 => "⠹",
            _ => "⠸",
        }
    }

    /// The current bamboo frame index (0-5), moving on every twenty frames.
    pub fn bamboo_frame_index(&self) -> (r: usize)
        ensures
            r == bamboo_index(self.frame_count() as int),
            r < BAMBOO_FRAME_COUNT,
    {
        (self.frame / BAMBOO_FRAME_TICKS) % BAMBOO_FRAME_COUNT
    }

    /// The current bamboo lines.
    pub fn bamboo_lines(&self) -> (r: Vec<&'static str>)
        ensures
            shows_bamboo(r@, bamboo_index(self.frame_count() as int)),
    {
        bamboo_frame(self.bamboo_frame_index())
    }
}

impl Default for AnimationController {
    /// A controller at sixty frames per second.
    fn default() -> (r: Self)
        ensures
            r.frame_count() == 0,
            r.rate() == 60,
    {
        Self::new(60)
    }
}

/// A dotted leader line of `width` middle dots.
pub fn render_dotted_leader(width: usize) -> (r: String)
    ensures
        r@ == Seq::new(width as nat, |i: int| '·'),
{
    let mut r = String::new();
    let mut i: usize = 0;
    while i < width
        invariant
            i <= width,
            r@ == Seq::new(i as nat, |k: int| '·'),
        decreases width - i,
    {
        push_char(&mut r, '·');
        i = i + 1;
        assert(r@ =~= Seq::new(i as nat, |k: int| '·'));
    }
    r
}

/// Bamboo lines for an animation frame counted outside a controller (same
/// timing as `AnimationController::bamboo_frame_index`).
pub fn get_bamboo_lines(frame: usize) -> (r: Vec<&'static str>)
    ensures
        shows_bamboo(r@, bamboo_index(frame as int)),
{
    bamboo_frame((frame / BAMBOO_FRAME_TICKS) % BAMBOO_FRAME_COUNT)
}

} // verus!
