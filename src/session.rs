//! Ownership of engine handles by sessions.
//!
//! A session opened by initializing the engine owns its handle and hands it
//! to engine-close exactly once. A child session, for a virtual machine found
//! inside its parent, uses a handle derived from the parent's and never
//! closes anything.
use vstd::prelude::*;
use crate::error::VmmError;
use crate::records::VmmMapVirtualMachineEntry;

verus! {

/// Mathematical view of a session.
pub struct SessionModel {
    pub handle: usize,
    /// The session must close its handle.
    pub owns: bool,
    /// The session has been closed.
    pub closed: bool,
    /// Handle of the parent session, for a child session.
    pub parent: Option<usize>,
}

impl SessionModel {
    /// The handle that closing this session hands to engine-close, if any.
    pub open spec fn close_result(self) -> Option<usize> {
        if self.owns && !self.closed {
            Some(self.handle)
        } else {
            None
        }
    }

    /// The session after `close()`.
    pub open spec fn closed_model(self) -> SessionModel {
        SessionModel { closed: true, ..self }
    }

    /// The child session of this one over the resolved handle `h`.
    pub open spec fn child_model(self, h: usize) -> SessionModel {
        SessionModel { handle: h, owns: false, closed: false, parent: Some(self.handle) }
    }
}

/// How many times `n` successive closes of `s` call engine-close.
pub open spec fn engine_closes(s: SessionModel, n: nat) -> nat
    decreases n,
{
    if n == 0 {
        0
    } else {
        (if s.close_result() is Some { 1nat } else { 0nat }) + engine_closes(s.closed_model(), (n - 1) as nat)
    }
}

/// The engine-handle state of one session.
pub struct SessionHandle {
    handle: usize,
    owns: bool,
    closed: bool,
    parent: Option<usize>,
}

impl View for SessionHandle {
    type V = SessionModel;

    closed spec fn view(&self) -> SessionModel {
        SessionModel { handle: self.handle, owns: self.owns, closed: self.closed, parent: self.parent }
    }
}

impl SessionHandle {
    /// The session over the handle that engine initialization returned; a
    /// zero handle means initialization failed. The session owns the handle.
    pub fn open(h: usize) -> (r: Result<SessionHandle, VmmError>)
        ensures
            r is Err <==> h == 0,
            r is Err ==> r->Err_0 == VmmError::EngineFailure,
            r matches Ok(s) ==> s@ == (SessionModel { handle: h, owns: true, closed: false, parent: None }),
    {
        if h == 0 {
            return Err(VmmError::EngineFailure);
        }
        Ok(SessionHandle { handle: h, owns: true, closed: false, parent: None })
    }

    /// The session over a freshly initialized engine: `h` is the handle
    /// initialization returned (zero: it failed) and `plugins_ok` says
    /// whether plugin initialization then succeeded. A failure comes with
    /// the handle that must now be closed, if there is one.
    pub fn open_initialized(h: usize, plugins_ok: bool) -> (r: Result<SessionHandle, (VmmError, Option<usize>)>)
        ensures
            r is Ok <==> (h != 0 && plugins_ok),
            r matches Ok(s) ==> s@ == (SessionModel { handle: h, owns: true, closed: false, parent: None }),
            r matches Err(f) ==> f.0 == VmmError::EngineFailure && f.1 == if h == 0 {
                None
            } else {
                Some(h)
            },
    {
        if h == 0 {
            return Err((VmmError::EngineFailure, None));
        }
        if !plugins_ok {
            return Err((VmmError::EngineFailure, Some(h)));
        }
        Ok(SessionHandle { handle: h, owns: true, closed: false, parent: None })
    }

    /// A session over a handle that someone else owns (a plugin's session
    /// over the engine that loaded it); it never closes the handle.
    pub fn borrowed(h: usize) -> (r: SessionHandle)
        ensures
            r@ == (SessionModel { handle: h, owns: false, closed: false, parent: None }),
    {
        SessionHandle { handle: h, owns: false, closed: false, parent: None }
    }

    /// Checks that `vm` was listed by this session and returns the virtual
    /// machine token to resolve into the child's handle.
    pub fn vm_token(&self, vm: &VmmMapVirtualMachineEntry) -> (r: Result<usize, VmmError>)
        ensures
            r is Err <==> vm.h_vmm != self@.handle,
            r is Err ==> r->Err_0 == VmmError::VmProvenance,
            r is Ok ==> r->Ok_0 == vm.h_vm,
    {
        if vm.h_vmm != self.handle {
            return Err(VmmError::VmProvenance);
        }
        Ok(vm.h_vm)
    }

    /// The child session over the handle the engine resolved for a virtual
    /// machine of this session; zero means resolution failed.
    pub fn child(&self, resolved: usize) -> (r: Result<SessionHandle, VmmError>)
        ensures
            r is Err <==> resolved == 0,
            r is Err ==> r->Err_0 == VmmError::EngineFailure,
            r matches Ok(c) ==> c@ == self@.child_model(resolved),
    {
        if resolved == 0 {
            return Err(VmmError::EngineFailure);
        }
        Ok(SessionHandle { handle: resolved, owns: false, closed: false, parent: Some(self.handle) })
    }

    /// Closes the session. Returns the handle to pass to engine-close: the
    /// session's own handle the first time an owning session is closed,
    /// `None` otherwise.
    pub fn close(&mut self) -> (r: Option<usize>)
        ensures
            r == old(self)@.close_result(),
            final(self)@ == old(self)@.closed_model(),
    {
        let r = if self.owns && !self.closed {
            Some(self.handle)
        } else {
            None
        };
        self.closed = true;
        r
    }

    /// The engine handle the session works on.
    pub fn handle(&self) -> (r: usize)
        ensures
            r == self@.handle,
    {
        self.handle
    }

    /// The session owns its handle.
    pub fn owns_handle(&self) -> (r: bool)
        ensures
            r == self@.owns,
    {
        self.owns
    }

    /// The session has been closed.
    pub fn is_closed(&self) -> (r: bool)
        ensures
            r == self@.closed,
    {
        self.closed
    }
}

/// Closing an owning session any number of times (at least once) calls
/// engine-close exactly once, on its own handle; a session that does not own
/// its handle never calls it.
pub proof fn lemma_close_exactly_once(s: SessionModel, n: nat)
    requires
        !s.closed,
        n > 0,
    ensures
        engine_closes(s, n) == if s.owns { 1nat } else { 0nat },
        s.owns ==> s.close_result() == Some(s.handle),
{
    lemma_closed_never_closes(s.closed_model(), (n - 1) as nat);
}

/// A closed session never calls engine-close again.
pub proof fn lemma_closed_never_closes(s: SessionModel, n: nat)
    requires
        s.closed,
    ensures
        engine_closes(s, n) == 0,
    decreases n,
{
    if n > 0 {
        lemma_closed_never_closes(s.closed_model(), (n - 1) as nat);
    }
}

/// Closing a child session, any number of times, never calls engine-close,
/// so never on its parent's handle.
pub proof fn lemma_child_never_closes(p: SessionModel, h: usize, n: nat)
    ensures
        engine_closes(p.child_model(h), n) == 0,
        p.child_model(h).close_result() is None,
    decreases n,
{
    if n > 0 {
        lemma_closed_never_closes(p.child_model(h).closed_model(), (n - 1) as nat);
    }
}

} // verus!
