use vstd::prelude::*;

verus! {

/// How the native layer manages a type's values.
#[derive(Clone, Copy, Debug, PartialEq, Eq, Hash, Structural)]
pub enum HandleKind {
    /// Copied and freed whole (`g_boxed_copy` / `g_boxed_free`).
    Boxed,
    /// Shared through an atomic reference count (`ref` / `unref`).
    RefCounted,
}

/// What a wrapper may do with the native value it points to.
#[derive(Clone, Copy, Debug, PartialEq, Eq, Hash, Structural)]
pub enum Custody {
    /// Sole owner: releases the value when done.
    Owned,
    /// Borrowed for a scope: never releases.
    Borrowed,
    /// Holds one reference: drops it when done.
    Shared,
}

/// A native call that a wrapper asks the native layer to make.
#[derive(Clone, Copy, Debug, PartialEq, Eq, Hash, Structural)]
pub enum NativeCall {
    Copy,
    Free,
    Ref,
    Unref,
}

/// The native type query gave no type: the type is not available.
#[derive(Clone, Copy, Debug, PartialEq, Eq, Hash, Structural)]
pub struct InitializationError;

/// The native layer handed over a null pointer.
#[derive(Clone, Copy, Debug, PartialEq, Eq, Hash, Structural)]
pub struct NullHandle;

/// A native type: its type identifier and how its values are managed.
#[derive(Clone, Copy, Debug, PartialEq, Eq, Hash, Structural)]
pub struct HandleDescriptor {
    type_id: usize,
    kind: HandleKind,
}

impl HandleDescriptor {
    pub closed spec fn spec_type_id(&self) -> usize {
        self.type_id
    }

    pub closed spec fn spec_kind(&self) -> HandleKind {
        self.kind
    }

    #[verifier::type_invariant]
    spec fn inv(&self) -> bool {
        self.type_id != 0
    }

    /// The descriptor of a type from the result of its native type query,
    /// which is zero where the query failed.
    pub fn from_type_query(type_id: usize, kind: HandleKind) -> (r: Result<
        HandleDescriptor,
        InitializationError,
    >)
        ensures
            r is Err <==> type_id == 0,
            r matches Ok(d) ==> d.spec_type_id() == type_id && d.spec_kind() == kind,
    {
        if type_id == 0 {
            Err(InitializationError)
        } else {
            Ok(HandleDescriptor { type_id, kind })
        }
    }

    /// The native type identifier; never zero.
    pub fn type_id(&self) -> (r: usize)
        ensures
            r == self.spec_type_id(),
            r != 0,
    {
        proof {
            use_type_invariant(self);
        }
        self.type_id
    }

    pub fn kind(&self) -> (r: HandleKind)
        ensures
            r == self.spec_kind(),
    {
        self.kind
    }
}

/// The model of a `Handle`: the address it points to, how the value is
/// managed, and what the handle may do with it.
pub struct HandleView {
    pub ptr: usize,
    pub kind: HandleKind,
    pub custody: Custody,
}

impl HandleView {
    /// A handle points somewhere, and only a counted value can be shared.
    pub open spec fn wf(self) -> bool {
        &&& self.ptr != 0
        &&& self.custody == Custody::Shared ==> self.kind == HandleKind::RefCounted
    }
}

/// Custody that a wrapper takes of a value whose ownership is handed over:
/// a boxed value is owned, a counted one is held by one reference.
pub open spec fn full_custody(kind: HandleKind) -> Custody {
    match kind {
        HandleKind::Boxed => Custody::Owned,
        HandleKind::RefCounted => Custody::Shared,
    }
}

/// The native call that disposing of a handle asks for: none for a borrowed
/// one, exactly one otherwise.
pub open spec fn release_call_of(kind: HandleKind, custody: Custody) -> Option<NativeCall> {
    match custody {
        Custody::Borrowed => None,
        Custody::Owned => Some(
            match kind {
                HandleKind::Boxed => NativeCall::Free,
                HandleKind::RefCounted => NativeCall::Unref,
            },
        ),
        Custody::Shared => Some(NativeCall::Unref),
    }
}

/// The native call that makes a copy a handle can own: a copy of a boxed
/// value, a new reference to a counted one.
pub open spec fn copy_call_of(kind: HandleKind) -> NativeCall {
    match kind {
        HandleKind::Boxed => NativeCall::Copy,
        HandleKind::RefCounted => NativeCall::Ref,
    }
}

/// A wrapper of one native pointer and the custody it has of it. Neither
/// `Copy` nor `Clone`: `release` consumes it, so it is released at most once.
pub struct Handle {
    ptr: usize,
    kind: HandleKind,
    custody: Custody,
}

impl View for Handle {
    type V = HandleView;

    closed spec fn view(&self) -> HandleView {
        HandleView { ptr: self.ptr, kind: self.kind, custody: self.custody }
    }
}

impl Handle {
    #[verifier::type_invariant]
    spec fn inv(&self) -> bool {
        self@.wf()
    }

    /// Takes custody of a value whose ownership the native layer handed over
    /// (transfer full); fails on a null pointer.
    pub fn from_glib_full(ptr: usize, kind: HandleKind) -> (r: Result<Handle, NullHandle>)
        ensures
            r is Err <==> ptr == 0,
            r matches Ok(h) ==> h@ == (HandleView { ptr, kind, custody: full_custody(kind) }),
    {
        if ptr == 0 {
            return Err(NullHandle);
        }
        let custody = match kind {
            HandleKind::Boxed => Custody::Owned,
            HandleKind::RefCounted => Custody::Shared,
        };
        Ok(Handle { ptr, kind, custody })
    }

    /// Borrows a value that stays with its owner (transfer none); fails on a
    /// null pointer.
    pub fn from_glib_none(ptr: usize, kind: HandleKind) -> (r: Result<Handle, NullHandle>)
        ensures
            r is Err <==> ptr == 0,
            r matches Ok(h) ==> h@ == (HandleView { ptr, kind, custody: Custody::Borrowed }),
    {
        if ptr == 0 {
            return Err(NullHandle);
        }
        Ok(Handle { ptr, kind, custody: Custody::Borrowed })
    }

    pub fn ptr(&self) -> (r: usize)
        ensures
            r == self@.ptr,
            r != 0,
    {
        proof {
            use_type_invariant(self);
        }
        self.ptr
    }

    pub fn kind(&self) -> (r: HandleKind)
        ensures
            r == self@.kind,
    {
        self.kind
    }

    pub fn custody(&self) -> (r: Custody)
        ensures
            r == self@.custody,
    {
        self.custody
    }

    /// The native call that gives a copy this handle's value for another
    /// owner.
    pub fn copy_call(&self) -> (r: NativeCall)
        ensures
            r == copy_call_of(self@.kind),
    {
        match self.kind {
            HandleKind::Boxed => NativeCall::Copy,
            HandleKind::RefCounted => NativeCall::Ref,
        }
    }

    /// The handle of the copy that `copy_call` produced at `copied`: owned
    /// for a boxed value, one more reference for a counted one. Fails where
    /// the copy is a null pointer.
    pub fn to_owned_copy(&self, copied: usize) -> (r: Result<Handle, NullHandle>)
        ensures
            r is Err <==> copied == 0,
            r matches Ok(h) ==> h@ == (HandleView {
                ptr: copied,
                kind: self@.kind,
                custody: full_custody(self@.kind),
            }),
    {
        Handle::from_glib_full(copied, self.kind)
    }

    /// The native call that disposing of this handle asks for.
    pub fn release_call(&self) -> (r: Option<NativeCall>)
        ensures
            r == release_call_of(self@.kind, self@.custody),
    {
        match self.custody {
            Custody::Borrowed => None,
            Custody::Owned => match self.kind {
                HandleKind::Boxed => Some(NativeCall::Free),
                HandleKind::RefCounted => Some(NativeCall::Unref),
            },
            Custody::Shared => Some(NativeCall::Unref),
        }
    }

    /// Gives up the handle, with the native call that its disposal asks for
    /// and the pointer to make it on. The handle is consumed: no second
    /// release of it can be written.
    pub fn release(self) -> (r: (usize, Option<NativeCall>))
        ensures
            r == (self@.ptr, release_call_of(self@.kind, self@.custody)),
    {
        let call = self.release_call();
        (self.ptr, call)
    }
}

/// A handle that owns or shares its value asks for exactly one native call
/// when it is disposed of, and a borrowed one for none; a shared handle only
/// ever drops a reference.
pub proof fn lemma_single_release(kind: HandleKind, custody: Custody)
    ensures
        (custody == Custody::Borrowed) <==> release_call_of(kind, custody) is None,
        custody == Custody::Shared ==> release_call_of(kind, custody) == Some(NativeCall::Unref),
        custody == Custody::Owned && kind == HandleKind::Boxed ==> release_call_of(kind, custody)
            == Some(NativeCall::Free),
{
}

/// Whatever a value was taken with, the copy of it is released by the call
/// that undoes its copy: a boxed copy is freed, a new reference dropped.
pub proof fn lemma_copy_then_release(kind: HandleKind)
    ensures
        release_call_of(kind, full_custody(kind)) == Some(
            match copy_call_of(kind) {
                NativeCall::Copy => NativeCall::Free,
                _ => NativeCall::Unref,
            },
        ),
{
}

/// A boxed value taken over with full custody (as a newly made payload is) is
/// freed exactly once, at its own address, when its handle is released; an
/// owned copy of it is freed exactly once at the copy's address. No pointer
/// gets a second free from these two handles.
pub proof fn lemma_boxed_value_freed_once(original: HandleView, copy: HandleView)
    requires
        original == (HandleView {
            ptr: original.ptr,
            kind: HandleKind::Boxed,
            custody: full_custody(HandleKind::Boxed),
        }),
        copy == (HandleView {
            ptr: copy.ptr,
            kind: original.kind,
            custody: full_custody(original.kind),
        }),
        original.wf(),
        copy.wf(),
        original.ptr != copy.ptr,
    ensures
        release_call_of(original.kind, original.custody) == Some(NativeCall::Free),
        release_call_of(copy.kind, copy.custody) == Some(NativeCall::Free),
        copy_call_of(original.kind) == NativeCall::Copy,
{
}

} // verus!
