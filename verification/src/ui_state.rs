//! Small pieces of screen state whose logic is plain data: the mention
//! popup's preference, the splash screen's progress flags, and the file
//! explorer's action type.

use vstd::prelude::*;

verus! {

/// The user-mention autocomplete popup.
#[derive(Debug, Clone)]
pub struct MentionPopup {
    use_display_name: bool,
}

impl MentionPopup {
    /// Whether listed users are shown by display name.
    pub closed spec fn spec_use_display_name(self) -> bool {
        self.use_display_name
    }

    /// A popup that lists users by display name exactly when asked to.
    pub fn new(use_display_name: bool) -> (p: MentionPopup)
        ensures
            p.spec_use_display_name() == use_display_name,
    {
        MentionPopup { use_display_name }
    }

    /// Whether listed users are shown by display name.
    pub fn use_display_name(&self) -> (r: bool)
        ensures
            r == self.spec_use_display_name(),
    {
        self.use_display_name
    }
}

/// Progress of the loading splash: whether the data arrived and whether
/// the animation has played out.
#[derive(Debug, Clone, Copy, PartialEq, Eq, Structural)]
pub struct LoadingState {
    pub data_ready: bool,
    pub animation_complete: bool,
}

impl Default for LoadingState {
    /// Neither the data nor the animation is done at the start.
    fn default() -> (d: LoadingState)
        ensures
            !d.data_ready,
            !d.animation_complete,
    {
        LoadingState { data_ready: false, animation_complete: false }
    }
}

/// What a key press in the file explorer asks the screen to do.
#[derive(Debug, Clone)]
pub enum FileExplorerAction {
    /// Attach the file at this path (as the explorer printed it).
    SelectFile(String),
    /// Close the explorer.
    Close,
    /// Nothing to do.
    Idle,
}

} // verus!
