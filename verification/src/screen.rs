//! What the display server says about its screens when a connection opens.

use vstd::prelude::*;

verus! {

/// One colour depth of a screen, with the identifiers of the visuals it
/// offers, in the order the server lists them.
pub struct Depth {
    pub visuals: Vec<u32>,
}

/// One screen of the display.
pub struct Screen {
    /// The root window, parent of every top-level window.
    pub root: u32,
    /// Identifier of the visual the root window uses.
    pub root_visual: u32,
    /// Pixel value that shows as white.
    pub white_pixel: u32,
    pub allowed_depths: Vec<Depth>,
}

/// The screens of the display, in the order the server lists them.
pub struct Setup {
    pub roots: Vec<Screen>,
}

/// The place of a visual in a [`Setup`]: which screen, which depth of that
/// screen, which visual of that depth.
#[derive(Copy, Clone, Debug, PartialEq, Eq)]
pub struct VisualRef {
    pub screen: usize,
    pub depth: usize,
    pub visual: usize,
}

/// What a new window needs to know of the screen it opens on.
#[derive(Copy, Clone, Debug, PartialEq, Eq)]
pub struct WindowTarget {
    pub root: u32,
    pub root_visual: u32,
    pub white_pixel: u32,
    /// Where the setup lists the root visual.
    pub visual: VisualRef,
}

impl VisualRef {
    /// Listing order: by screen, then by depth, then by visual.
    pub open spec fn before(self, other: VisualRef) -> bool {
        ||| self.screen < other.screen
        ||| self.screen == other.screen && self.depth < other.depth
        ||| self.screen == other.screen && self.depth == other.depth && self.visual < other.visual
    }
}

impl Setup {
    /// The setup lists the visual `visual_id` at `at`.
    pub open spec fn lists(&self, at: VisualRef, visual_id: u32) -> bool {
        &&& at.screen < self.roots@.len()
        &&& at.depth < self.roots@[at.screen as int].allowed_depths@.len()
        &&& at.visual < self.roots@[at.screen as int].allowed_depths@[at.depth as int].visuals@.len()
        &&& self.roots@[at.screen as int].allowed_depths@[at.depth as int].visuals@[at.visual as int]
            == visual_id
    }

    /// `at` is the earliest place where the setup lists `visual_id`.
    pub open spec fn lists_first(&self, at: VisualRef, visual_id: u32) -> bool {
        &&& self.lists(at, visual_id)
        &&& forall|other: VisualRef| #[trigger] self.lists(other, visual_id) ==> !other.before(at)
    }

    /// The earliest place where the setup lists `visual_id`, if it does.
    pub open spec fn first_visual(&self, visual_id: u32) -> Option<VisualRef> {
        if exists|at: VisualRef| self.lists(at, visual_id) {
            Some(choose|at: VisualRef| self.lists_first(at, visual_id))
        } else {
            None
        }
    }

    /// What a window on screen `screen_num` is created with: nothing if there
    /// is no such screen or the setup does not list its root visual.
    pub open spec fn target(&self, screen_num: i32) -> Option<WindowTarget> {
        if 0 <= screen_num < self.roots@.len() {
            let screen = self.roots@[screen_num as int];
            match self.first_visual(screen.root_visual) {
                Some(visual) => Some(
                    WindowTarget {
                        root: screen.root,
                        root_visual: screen.root_visual,
                        white_pixel: screen.white_pixel,
                        visual,
                    },
                ),
                None => None,
            }
        } else {
            None
        }
    }

    /// At most one place is the earliest.
    pub proof fn lemma_first_is_unique(&self, a: VisualRef, b: VisualRef, visual_id: u32)
        requires
            self.lists_first(a, visual_id),
            self.lists_first(b, visual_id),
        ensures
            a == b,
    {
        assert(!a.before(b));
        assert(!b.before(a));
    }

    /// Searches the screens, their depths and the visuals of each depth in
    /// listing order for `visual_id`.
    pub fn find_visual(&self, visual_id: u32) -> (found: Option<VisualRef>)
        ensures
            found == self.first_visual(visual_id),
    {
        let mut screen: usize = 0;
        while screen < self.roots.len()
            invariant
                screen <= self.roots@.len(),
                forall|other: VisualRef| #[trigger]
                    self.lists(other, visual_id) ==> other.screen >= screen,
            decreases self.roots@.len() - screen,
        {
            let depths = &self.roots[screen].allowed_depths;
            let mut depth: usize = 0;
            while depth < depths.len()
                invariant
                    screen < self.roots@.len(),
                    depths == &self.roots@[screen as int].allowed_depths,
                    depth <= depths@.len(),
                    forall|other: VisualRef| #[trigger]
                        self.lists(other, visual_id) ==> other.screen > screen || (other.screen
                            == screen && other.depth >= depth),
                decreases depths@.len() - depth,
            {
                let visuals = &depths[depth].visuals;
                let mut visual: usize = 0;
                while visual < visuals.len()
                    invariant
                        screen < self.roots@.len(),
                        depths == &self.roots@[screen as int].allowed_depths,
                        depth < depths@.len(),
                        visuals == &depths@[depth as int].visuals,
                        visual <= visuals@.len(),
                        forall|other: VisualRef| #[trigger]
                            self.lists(other, visual_id) ==> other.screen > screen || (other.screen
                                == screen && other.depth > depth) || (other.screen == screen
                                && other.depth == depth && other.visual >= visual),
                    decreases visuals@.len() - visual,
                {
                    if visuals[visual] == visual_id {
                        let at = VisualRef { screen, depth, visual };
                        proof {
                            assert(self.lists_first(at, visual_id));
                            let chosen = choose|at: VisualRef| self.lists_first(at, visual_id);
                            self.lemma_first_is_unique(at, chosen, visual_id);
                        }
                        return Some(at);
                    }
                    visual = visual + 1;
                }
                depth = depth + 1;
            }
            screen = screen + 1;
        }
        None
    }

    /// Looks up screen `screen_num` and the place of its root visual.
    pub fn window_target(&self, screen_num: i32) -> (target: Option<WindowTarget>)
        ensures
            target == self.target(screen_num),
    {
        if screen_num < 0 {
            return None;
        }
        let index = screen_num as usize;
        if index >= self.roots.len() {
            return None;
        }
        let screen = &self.roots[index];
        match self.find_visual(screen.root_visual) {
            Some(visual) => Some(
                WindowTarget {
                    root: screen.root,
                    root_visual: screen.root_visual,
                    white_pixel: screen.white_pixel,
                    visual,
                },
            ),
            None => None,
        }
    }
}

} // verus!
