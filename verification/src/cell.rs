//! The hot-reload cell itself: its state, its transitions, and the read view.

use vstd::prelude::*;

verus! {

/// The mathematical state of one cell.
///
/// `path` identifies the watched file, `current` is the generation readers
/// see, `pending` is the single coalescing slot that a change notification
/// fills, and `started` records whether the one-time bootstrap has run.
#[verifier::ext_equal]
pub struct ModuleView {
    pub path: Seq<char>,
    pub current: Seq<u8>,
    pub pending: Option<Seq<u8>>,
    pub started: bool,
}

impl ModuleView {
    /// Before the bootstrap the cell holds nothing: no content and no
    /// pending deposit, since the subscription that deposits is only
    /// registered by the bootstrap.
    pub open spec fn wf(self) -> bool {
        !self.started ==> self.current == Seq::<u8>::empty() && self.pending is None
    }
}

/// The state of a freshly constructed cell: empty and not yet started.
pub open spec fn fresh_cell(path: Seq<char>) -> ModuleView {
    ModuleView { path, current: Seq::empty(), pending: None, started: false }
}

/// The one-time bootstrap: the first successful read of the backing file
/// becomes the current generation.
pub open spec fn bootstrapped(m: ModuleView, b: Seq<u8>) -> ModuleView {
    ModuleView { current: b, started: true, ..m }
}

/// A deposit overwrites whatever the pending slot held: a newer
/// modification supersedes an older unpromoted one.
pub open spec fn deposited(m: ModuleView, b: Seq<u8>) -> ModuleView {
    ModuleView { pending: Some(b), ..m }
}

/// A promotion drains the pending slot into the current generation, or
/// does nothing when the slot is empty.
pub open spec fn promoted(m: ModuleView) -> ModuleView {
    match m.pending {
        Some(b) => ModuleView { current: b, pending: None, ..m },
        None => m,
    }
}

/// A hot-reloaded module: one cell per watched path.
///
/// The embedding program reads the backing file and registers the change
/// notification; the cell decides what every read and every notification
/// does to its two buffers.
#[derive(Debug)]
pub struct Module {
    path: String,
    current: Vec<u8>,
    pending: Option<Vec<u8>>,
    started: bool,
}

impl View for Module {
    type V = ModuleView;

    closed spec fn view(&self) -> ModuleView {
        ModuleView {
            path: self.path@,
            current: self.current@,
            pending: self.pending.deep_view(),
            started: self.started,
        }
    }
}

/// A read guard of a module: a view of one complete generation.
#[derive(Debug)]
pub struct Guard<'a> {
    bytes: &'a Vec<u8>,
}

impl<'a> View for Guard<'a> {
    type V = Seq<u8>;

    closed spec fn view(&self) -> Seq<u8> {
        self.bytes@
    }
}

impl<'a> Guard<'a> {
    /// The guarded bytes.
    pub fn as_slice(&self) -> (r: &'a [u8])
        ensures
            r@ == self@,
    {
        self.bytes.as_slice()
    }
}

impl Module {
    /// Creates a module. Construction is free: nothing is read until the
    /// bootstrap.
    pub fn new(path: String) -> (m: Module)
        ensures
            m@ == fresh_cell(path@),
    {
        Module { path, current: Vec::new(), pending: None, started: false }
    }

    /// Whether the one-time bootstrap has run.
    pub fn is_started(&self) -> (r: bool)
        ensures
            r == self@.started,
    {
        self.started
    }

    /// The one-time bootstrap: installs the first read of the backing file
    /// as the current generation. Runs at most once per cell.
    pub fn bootstrap(&mut self, bytes: Vec<u8>)
        requires
            !old(self)@.started,
        ensures
            final(self)@ == bootstrapped(old(self)@, bytes@),
    {
        self.current = bytes;
        self.started = true;
    }

    /// Called by the change notification with a fresh read of the backing
    /// file: overwrites any unpromoted deposit, so the slot always holds
    /// the newest generation (last-writer-wins coalescing).
    pub fn deposit_pending(&mut self, bytes: Vec<u8>)
        requires
            old(self)@.started,
        ensures
            final(self)@ == deposited(old(self)@, bytes@),
    {
        self.pending = Some(bytes);
    }

    /// The decision taken when the subscription reports a modification of
    /// the watched path: a successful re-read is deposited, a failed one is
    /// dropped whole, so a transiently unreadable file leaves the last
    /// known-good content in place and never wedges the cell.
    pub fn on_change_event(&mut self, reread: Option<Vec<u8>>)
        requires
            old(self)@.started,
        ensures
            reread is Some ==> final(self)@ == deposited(old(self)@, reread.unwrap()@),
            reread is None ==> final(self)@ == old(self)@,
    {
        if let Some(bytes) = reread {
            self.deposit_pending(bytes);
        }
    }

    /// Drains the pending slot into the current generation, if a deposit is
    /// waiting. A skipped promotion loses nothing: the slot keeps the
    /// newest deposit until some later call drains it.
    pub fn try_promote(&mut self)
        ensures
            final(self)@ == promoted(old(self)@),
    {
        let pending = self.pending.take();
        if let Some(bytes) = pending {
            self.current = bytes;
        }
    }

    /// A read of the current generation, untouched.
    pub fn read_current<'a>(&'a self) -> (g: Guard<'a>)
        ensures
            g@ == self@.current,
    {
        Guard { bytes: &self.current }
    }

    /// Loads the content: promotes any waiting deposit, then returns a view
    /// of the current generation — always one complete generation, never a
    /// mixture of two.
    pub fn load(&mut self) -> (g: Guard<'_>)
        requires
            old(self)@.started,
        ensures
            final(self)@ == promoted(old(self)@),
            g@ == promoted(old(self)@).current,
    {
        self.try_promote();
        Guard { bytes: &self.current }
    }
}

} // verus!
