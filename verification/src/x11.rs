//! The application: window registry, quit flag and the queue of requests.

use vstd::prelude::*;
use std::collections::HashMap;
use crate::request::{
    creation_requests, destruction_requests, Atoms, ChangeProperty, CreateWindow, Request,
    ATOM_ATOM, ATOM_FORMAT, COPY_FROM_PARENT, PROP_MODE_REPLACE, WINDOW_CLASS_INPUT_OUTPUT,
    WINDOW_EVENT_MASK,
};
use crate::screen::{Setup, WindowTarget};

verus! {

broadcast use vstd::std_specs::hash::group_hash_axioms;

/// A window: its identifier and the size of its drawing surface.
#[derive(Copy, Clone, Debug, PartialEq, Eq)]
pub struct X11Window {
    pub id: u32,
    pub width: u16,
    pub height: u16,
}

/// An application on an X11 display. `C` is the colour type of its drawing
/// requests.
pub struct X11Application<C> {
    target: Option<WindowTarget>,
    atoms: Atoms,
    sizes: HashMap<u32, (u16, u16)>,
    should_quit: bool,
    pending: Vec<Request<C>>,
}

/// An application as contracts see it.
pub struct ApplicationView<C> {
    /// What new windows are created with, if the screen allows any.
    pub target: Option<WindowTarget>,
    pub atoms: Atoms,
    /// The registry: every live window, by its identifier.
    pub windows: Map<u32, X11Window>,
    pub should_quit: bool,
    /// The requests issued and not yet taken, oldest first.
    pub pending: Seq<Request<C>>,
}

impl<C> ApplicationView<C> {
    /// A fresh application: no window, nothing pending, not asked to quit.
    pub open spec fn initial(target: Option<WindowTarget>, atoms: Atoms) -> Self {
        ApplicationView {
            target,
            atoms,
            windows: Map::empty(),
            should_quit: false,
            pending: Seq::empty(),
        }
    }

    /// The application after it created the window `window`. What it
    /// queues is meaningful only where there is a target.
    pub open spec fn create_window(self, window: u32, width: u16, height: u16) -> Self {
        ApplicationView {
            windows: self.windows.insert(window, X11Window { id: window, width, height }),
            pending: self.pending + creation_requests(
                self.target->0,
                self.atoms,
                window,
                width,
                height,
            ),
            ..self
        }
    }

    /// The application after it destroyed the window `window`.
    pub open spec fn destroy_window(self, window: u32) -> Self {
        ApplicationView {
            windows: self.windows.remove(window),
            pending: self.pending + destruction_requests(window),
            ..self
        }
    }

    /// The application after it queued `requests`.
    pub open spec fn issue(self, requests: Seq<Request<C>>) -> Self {
        ApplicationView { pending: self.pending + requests, ..self }
    }
}

/// One change to the registry.
pub enum RegistryChange {
    /// A window was created.
    Create { window: X11Window },
    /// The window with this identifier was destroyed.
    Destroy { window: u32 },
}

impl<C> ApplicationView<C> {
    /// The application after one change to its registry.
    pub open spec fn apply(self, change: RegistryChange) -> Self {
        match change {
            RegistryChange::Create { window } => self.create_window(
                window.id,
                window.width,
                window.height,
            ),
            RegistryChange::Destroy { window } => self.destroy_window(window),
        }
    }

    /// The application after a run of changes to its registry, first to last.
    pub open spec fn apply_all(self, changes: Seq<RegistryChange>) -> Self
        decreases changes.len(),
    {
        if changes.len() == 0 {
            self
        } else {
            self.apply_all(changes.drop_last()).apply(changes.last())
        }
    }

    /// The application after it created `windows`, first to last.
    pub open spec fn create_all(self, windows: Seq<X11Window>) -> Self {
        self.apply_all(windows.map_values(|window: X11Window| RegistryChange::Create { window }))
    }

    /// Whatever run of windows an application creates, as long as the server
    /// hands out identifiers that are not in use and no identifier twice:
    /// every one of them is registered afterwards, with its own window; the
    /// registry has grown by exactly their number; and the windows that were
    /// there before are still there.
    pub proof fn lemma_created_windows_are_registered(self, windows: Seq<X11Window>)
        requires
            self.windows.dom().finite(),
            forall|i: int| 0 <= i < windows.len() ==> !self.windows.contains_key(windows[i].id),
            forall|i: int, j: int| 0 <= i < j < windows.len() ==> windows[i].id != windows[j].id,
        ensures
            self.create_all(windows).windows.dom().finite(),
            self.create_all(windows).windows.len() == self.windows.len() + windows.len(),
            forall|i: int|
                0 <= i < windows.len() ==> self.create_all(windows).windows.contains_key(
                    #[trigger] windows[i].id,
                ) && self.create_all(windows).windows[windows[i].id] == windows[i],
            forall|id: u32| #[trigger]
                self.windows.contains_key(id) ==> self.create_all(windows).windows.contains_key(id)
                    && self.create_all(windows).windows[id] == self.windows[id],
        decreases windows.len(),
    {
        let changes = windows.map_values(|window: X11Window| RegistryChange::Create { window });
        if windows.len() > 0 {
            let earlier = windows.drop_last();
            let last = windows.last();
            assert(changes.drop_last() =~= earlier.map_values(
                |window: X11Window| RegistryChange::Create { window },
            ));
            assert(changes.last() == RegistryChange::Create { window: last });
            self.lemma_created_windows_are_registered(earlier);
            let before = self.create_all(earlier);
            assert(self.create_all(windows) == before.create_window(
                last.id,
                last.width,
                last.height,
            ));
            assert(!before.windows.contains_key(last.id)) by {
                if before.windows.contains_key(last.id) {
                    before.lemma_created_from(self, earlier, last.id);
                }
            }
            assert forall|i: int| 0 <= i < windows.len() implies self.create_all(
                windows,
            ).windows.contains_key(#[trigger] windows[i].id) && self.create_all(
                windows,
            ).windows[windows[i].id] == windows[i] by {
                if i < earlier.len() {
                    assert(earlier[i] == windows[i]);
                }
            }
            assert forall|id: u32| #[trigger] self.windows.contains_key(id) implies self.create_all(
                windows,
            ).windows.contains_key(id) && self.create_all(windows).windows[id]
                == self.windows[id] by {
                assert(!self.windows.contains_key(windows[windows.len() - 1].id));
            }
        }
    }

    /// A window that is registered after `windows` were created was there
    /// before or is one of them.
    proof fn lemma_created_from(self, origin: Self, windows: Seq<X11Window>, id: u32)
        requires
            self == origin.create_all(windows),
            self.windows.contains_key(id),
        ensures
            origin.windows.contains_key(id) || exists|i: int|
                0 <= i < windows.len() && #[trigger] windows[i].id == id,
        decreases windows.len(),
    {
        let changes = windows.map_values(|window: X11Window| RegistryChange::Create { window });
        if windows.len() > 0 {
            let earlier = windows.drop_last();
            let last = windows.last();
            assert(changes.drop_last() =~= earlier.map_values(
                |window: X11Window| RegistryChange::Create { window },
            ));
            assert(changes.last() == RegistryChange::Create { window: last });
            if last.id != id {
                let before = origin.create_all(earlier);
                before.lemma_created_from(origin, earlier, id);
                if !origin.windows.contains_key(id) {
                    let i = choose|i: int| 0 <= i < earlier.len() && #[trigger] earlier[i].id == id;
                    assert(windows[i].id == id);
                }
            } else {
                assert(windows[windows.len() - 1].id == id);
            }
        }
    }

    /// An identifier that is not registered stays so through every run of
    /// changes that does not create a window with it.
    pub proof fn lemma_absent_unless_created(self, changes: Seq<RegistryChange>, id: u32)
        requires
            !self.windows.contains_key(id),
            forall|i: int|
                0 <= i < changes.len() ==> (#[trigger] changes[i] matches RegistryChange::Create {
                    window,
                } ==> window.id != id),
        ensures
            !self.apply_all(changes).windows.contains_key(id),
        decreases changes.len(),
    {
        if changes.len() > 0 {
            self.lemma_absent_unless_created(changes.drop_last(), id);
            assert(changes.last() == changes[changes.len() - 1]);
        }
    }

    /// In an application that started fresh, an identifier that no window
    /// was ever created with is not registered, whatever else was created
    /// and destroyed.
    pub proof fn lemma_never_created_is_absent(
        target: Option<WindowTarget>,
        atoms: Atoms,
        changes: Seq<RegistryChange>,
        id: u32,
    )
        requires
            forall|i: int|
                0 <= i < changes.len() ==> (#[trigger] changes[i] matches RegistryChange::Create {
                    window,
                } ==> window.id != id),
        ensures
            !Self::initial(target, atoms).apply_all(changes).windows.contains_key(id),
    {
        Self::initial(target, atoms).lemma_absent_unless_created(changes, id);
    }

    /// Destroying a registered window makes the registry smaller by exactly
    /// one and leaves the identifier unregistered; the other windows stay.
    pub proof fn lemma_destroy_window_removes_one(self, id: u32)
        requires
            self.windows.dom().finite(),
            self.windows.contains_key(id),
        ensures
            self.destroy_window(id).windows.len() == self.windows.len() - 1,
            !self.destroy_window(id).windows.contains_key(id),
            forall|other: u32|
                other != id && self.windows.contains_key(other) ==> self.destroy_window(
                    id,
                ).windows.contains_key(other) && #[trigger] self.destroy_window(id).windows[other]
                    == self.windows[other],
    {
    }

    /// After a window was destroyed its identifier is not registered,
    /// whether it was before or not.
    pub proof fn lemma_destroyed_window_is_absent(self, id: u32)
        ensures
            !self.destroy_window(id).windows.contains_key(id),
    {
    }

    /// Destroying a window that is not registered leaves the registry as it
    /// is.
    pub proof fn lemma_destroy_window_absent(self, id: u32)
        requires
            !self.windows.contains_key(id),
        ensures
            self.destroy_window(id).windows == self.windows,
    {
        assert(self.windows.remove(id) =~= self.windows);
    }
}

impl<C> View for X11Application<C> {
    type V = ApplicationView<C>;

    closed spec fn view(&self) -> ApplicationView<C> {
        ApplicationView {
            target: self.target,
            atoms: self.atoms,
            windows: Map::new(
                |id: u32| self.sizes@.contains_key(id),
                |id: u32| X11Window { id, width: self.sizes@[id].0, height: self.sizes@[id].1 },
            ),
            should_quit: self.should_quit,
            pending: self.pending@,
        }
    }
}

impl<C> X11Application<C> {
    /// The registry of every application is finite and holds each window
    /// under the window's own identifier.
    pub proof fn lemma_registry_is_keyed(self)
        ensures
            self@.windows.dom().finite(),
            forall|id: u32|
                self@.windows.contains_key(id) ==> (#[trigger] self@.windows[id]).id == id,
    {
        assert(self@.windows.dom() =~= self.sizes@.dom());
    }

    /// An application on screen `screen_num` of the display that `setup`
    /// describes, with the protocol atoms that the server interned.
    pub fn new(setup: &Setup, screen_num: i32, atoms: Atoms) -> (app: Self)
        ensures
            app@ == ApplicationView::<C>::initial(setup.target(screen_num), atoms),
    {
        let app = X11Application {
            target: setup.window_target(screen_num),
            atoms,
            sizes: HashMap::new(),
            should_quit: false,
            pending: Vec::new(),
        };
        assert(app@.windows =~= Map::empty());
        app
    }

    /// An application that holds nothing; it stands in while the real one is
    /// in the hands of a listener.
    pub(crate) fn detached() -> (app: Self)
        ensures
            app@ == ApplicationView::<C>::initial(
                None,
                Atoms { wm_protocols: 0, wm_delete_window: 0 },
            ),
    {
        let app = X11Application {
            target: None,
            atoms: Atoms { wm_protocols: 0, wm_delete_window: 0 },
            sizes: HashMap::new(),
            should_quit: false,
            pending: Vec::new(),
        };
        assert(app@.windows =~= Map::empty());
        app
    }

    /// The atom that marks a close request.
    pub fn wm_delete_window(&self) -> (atom: u32)
        ensures
            atom == self@.atoms.wm_delete_window,
    {
        self.atoms.wm_delete_window
    }

    /// Whether the screen has what a window needs: it exists, and the setup
    /// lists its root visual.
    pub fn can_create_window(&self) -> (possible: bool)
        ensures
            possible == (self@.target is Some),
    {
        self.target.is_some()
    }

    /// Registers the window `window_id`, which the server has just allocated,
    /// and queues the requests that create, show and bind it. An identifier
    /// that is already registered gets the new window in place of the old.
    pub fn create_window(&mut self, window_id: u32, width: u16, height: u16) -> (id: u32)
        requires
            old(self)@.target is Some,
        ensures
            id == window_id,
            final(self)@ == old(self)@.create_window(window_id, width, height),
    {
        let target = self.target.unwrap();
        self.pending.push(
            Request::CreateWindow(
                CreateWindow {
                    depth: COPY_FROM_PARENT,
                    window: window_id,
                    parent: target.root,
                    x: 0,
                    y: 0,
                    width,
                    height,
                    border_width: 0,
                    class: WINDOW_CLASS_INPUT_OUTPUT,
                    visual: target.root_visual,
                    back_pixel: target.white_pixel,
                    event_mask: WINDOW_EVENT_MASK,
                },
            ),
        );
        self.pending.push(
            Request::ChangeProperty(
                ChangeProperty {
                    mode: PROP_MODE_REPLACE,
                    window: window_id,
                    property: self.atoms.wm_protocols,
                    property_type: ATOM_ATOM,
                    format: ATOM_FORMAT,
                    data: self.atoms.wm_delete_window,
                },
            ),
        );
        self.pending.push(Request::MapWindow { window: window_id });
        self.pending.push(Request::Flush);
        self.pending.push(
            Request::CreateSurface {
                window: window_id,
                visual: target.visual,
                width: width as i32,
                height: height as i32,
            },
        );
        self.sizes.insert(window_id, (width, height));
        self.pending.push(Request::Flush);
        proof {
            let after = old(self)@.create_window(window_id, width, height);
            assert(self@.windows =~= after.windows);
            assert(self@.pending =~= after.pending);
        }
        window_id
    }

    /// The window registered under `id`, if there is one.
    pub fn get_window(&self, id: u32) -> (window: Option<X11Window>)
        ensures
            window == if self@.windows.contains_key(id) {
                Some(self@.windows[id])
            } else {
                None
            },
            window matches Some(found) ==> found.id == id,
    {
        match self.sizes.get(&id) {
            Some(size) => Some(X11Window { id, width: size.0, height: size.1 }),
            None => None,
        }
    }

    /// How many windows are registered.
    pub fn windows_len(&self) -> (count: usize)
        ensures
            count == self@.windows.len(),
            self@.windows.dom().finite(),
    {
        assert(self@.windows.dom() =~= self.sizes@.dom());
        self.sizes.len()
    }

    /// Queues the requests that destroy the window `window_id` and takes it
    /// out of the registry. Nothing is reported if it was not registered: the
    /// requests are queued all the same, and the registry stays as it is.
    pub fn destroy_window(&mut self, window_id: u32)
        ensures
            final(self)@ == old(self)@.destroy_window(window_id),
    {
        self.pending.push(Request::DestroyWindow { window: window_id });
        self.pending.push(Request::Flush);
        self.sizes.remove(&window_id);
        proof {
            let after = old(self)@.destroy_window(window_id);
            assert(self@.windows =~= after.windows);
            assert(self@.pending =~= after.pending);
        }
    }

    /// Sets the flag that ends the main loop after the event in progress.
    pub fn set_should_quit(&mut self, should_quit: bool)
        ensures
            final(self)@ == (ApplicationView { should_quit, ..old(self)@ }),
    {
        self.should_quit = should_quit;
    }

    /// Asks the main loop to end after the event in progress.
    pub fn quit(&mut self)
        ensures
            final(self)@ == (ApplicationView { should_quit: true, ..old(self)@ }),
    {
        self.set_should_quit(true);
    }

    /// Whether the main loop was asked to end.
    pub fn should_quit(&self) -> (asked: bool)
        ensures
            asked == self@.should_quit,
    {
        self.should_quit
    }

    /// Queues one request behind those already pending.
    pub(crate) fn issue(&mut self, request: Request<C>)
        ensures
            final(self)@ == old(self)@.issue(seq![request]),
    {
        self.pending.push(request);
        assert(self@.pending =~= old(self)@.pending + seq![request]);
    }

    /// Queues a flush: everything queued before it is to reach the display
    /// server before anything queued after it.
    pub fn flush(&mut self)
        ensures
            final(self)@ == old(self)@.issue(seq![Request::Flush]),
    {
        self.pending.push(Request::Flush);
        assert(self@.pending =~= old(self)@.pending + seq![Request::Flush]);
    }

    /// Hands out the queued requests, oldest first, and leaves the queue
    /// empty.
    pub fn take_requests(&mut self) -> (requests: Vec<Request<C>>)
        ensures
            requests@ == old(self)@.pending,
            final(self)@ == (ApplicationView { pending: Seq::empty(), ..old(self)@ }),
    {
        let mut requests: Vec<Request<C>> = Vec::new();
        std::mem::swap(&mut self.pending, &mut requests);
        requests
    }
}

} // verus!
