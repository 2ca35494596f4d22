//! The placeholder page shown while another page is being built.

use vstd::prelude::*;

verus! {

/// The number of frames of the loading animation.
pub const LOADING_FRAMES: u8 = 8;

/// The frame that follows `phase`: the next one, and after the last frame the
/// first again.
pub open spec fn next_phase(phase: nat) -> nat {
    if phase + 1 >= LOADING_FRAMES {
        0
    } else {
        phase + 1
    }
}

/// The message shown while a path is scanned for files.
pub open spec fn scanning_text() -> Seq<char> {
    "扫描文件中..."@
}

/// The message shown while a novel is loaded.
pub open spec fn loading_text() -> Seq<char> {
    "正在加载小说..."@
}

/// The frame of the loading animation that is on screen.
#[derive(Clone, Copy, Debug, PartialEq, Eq)]
pub struct LoadingState {
    pub phase: u8,
}

impl LoadingState {
    /// Moves the animation on by one frame.
    pub fn calc_next(&mut self)
        ensures
            final(self).phase == next_phase(old(self).phase as nat),
            final(self).phase < LOADING_FRAMES,
    {
        if self.phase >= LOADING_FRAMES - 1 {
            self.phase = 0;
        } else {
            self.phase = self.phase + 1;
        }
    }
}

/// A loading page: a message and an animation.
#[derive(Debug, PartialEq, Eq)]
pub struct Loading {
    pub message: String,
    pub state: LoadingState,
}

/// A loading page, by its text and its frame.
pub struct LoadingView {
    pub message: Seq<char>,
    pub phase: nat,
}

impl View for Loading {
    type V = LoadingView;

    open spec fn view(&self) -> LoadingView {
        LoadingView { message: self.message@, phase: self.state.phase as nat }
    }
}

impl LoadingView {
    /// A loading page at its first frame.
    pub open spec fn start(message: Seq<char>) -> LoadingView {
        LoadingView { message, phase: 0 }
    }

    /// The page one tick later.
    pub open spec fn ticked(self) -> LoadingView {
        LoadingView { message: self.message, phase: next_phase(self.phase) }
    }
}

impl Loading {
    /// A loading page with `message`, at its first frame.
    pub fn new(message: String) -> (page: Loading)
        ensures
            page@ == LoadingView::start(message@),
    {
        Loading { message, state: LoadingState { phase: 0 } }
    }

    /// The page shown while a path is scanned for files.
    pub fn scanning() -> (page: Loading)
        ensures
            page@ == LoadingView::start(scanning_text()),
    {
        Loading::new("扫描文件中...".to_owned())
    }

    /// The page shown while a novel is loaded.
    pub fn loading_novel() -> (page: Loading)
        ensures
            page@ == LoadingView::start(loading_text()),
    {
        Loading::new("正在加载小说...".to_owned())
    }
}

/// The animation never leaves its frames, and from any of them it is back
/// where it was after as many ticks as there are frames.
pub proof fn lemma_animation_cycles(phase: nat)
    requires
        phase < LOADING_FRAMES,
    ensures
        next_phase(phase) < LOADING_FRAMES,
        next_phase(
            next_phase(
                next_phase(
                    next_phase(next_phase(next_phase(next_phase(next_phase(phase))))),
                ),
            ),
        ) == phase,
{
}

} // verus!
