use vstd::prelude::*;

verus! {

/// Length in bytes of the buffers of a registry made with [`Registry::new`].
pub const GB: usize = 1024 * 1024 * 1024;

/// The value that every byte of a fresh buffer holds.
pub const SENTINEL: u8 = 42;

/// Who holds a buffer that a handle names.
#[derive(Clone, Copy, Debug, PartialEq, Eq, Structural)]
pub enum Ownership {
    /// Allocated; the managed runtime has not been told of it yet.
    Owned,
    /// Delivered to the managed runtime, which will finalize it.
    Transferred,
    /// Its delivery failed: the buffer stays alive, and may be delivered again
    /// or finalized explicitly.
    Undelivered,
    /// Destroyed; the handle is no longer valid.
    Finalized,
}

/// Why a registry operation was refused.
#[derive(Clone, Copy, Debug, PartialEq, Eq, Structural)]
pub enum HandleError {
    /// No further handle can be issued.
    Exhausted,
    /// The handle was never issued by this registry.
    Unknown,
    /// The buffer of the handle has already been destroyed.
    Finalized,
    /// The handle has already been delivered to the managed runtime.
    AlreadyTransferred,
}

/// Outcome of handing a registration to the notifier.
#[derive(Clone, Copy, Debug, PartialEq, Eq, Structural)]
pub enum Delivery {
    /// The managed runtime now owns the handle.
    Delivered,
    /// The notifier refused it: the buffer is kept alive, unowned.
    LeakedUndelivered,
}

/// What the managed runtime is told of a new buffer: its handle and the byte
/// size it should account for.
#[derive(Clone, Copy, Debug, PartialEq, Eq, Structural)]
pub struct Registration {
    pub handle: usize,
    pub size: usize,
}

/// A buffer slot as seen by the contracts.
pub ghost struct EntryModel {
    pub state: Ownership,
    pub contents: Seq<u8>,
}

/// A registry as seen by the contracts: the handle `h` names `entries[h - 1]`.
pub ghost struct RegistryModel {
    pub buffer_len: nat,
    pub entries: Seq<EntryModel>,
}

/// A buffer of `len` sentinel bytes.
pub open spec fn filled(len: nat) -> Seq<u8> {
    Seq::new(len, |i: int| SENTINEL)
}

impl RegistryModel {
    pub open spec fn issued(self, h: usize) -> bool {
        1 <= h <= self.entries.len()
    }

    pub open spec fn entry(self, h: usize) -> EntryModel {
        self.entries[h - 1]
    }

    /// Whether `h` names a buffer that is still alive, and if not, why.
    pub open spec fn status(self, h: usize) -> Result<(), HandleError> {
        if !self.issued(h) {
            Err(HandleError::Unknown)
        } else if self.entry(h).state == Ownership::Finalized {
            Err(HandleError::Finalized)
        } else {
            Ok(())
        }
    }

    /// Every live buffer holds `buffer_len` sentinel bytes; every destroyed
    /// one holds nothing.
    pub open spec fn valid(self) -> bool {
        &&& self.buffer_len > 0
        &&& forall|i: int|
            0 <= i < self.entries.len() ==> {
                let e = #[trigger] self.entries[i];
                if e.state == Ownership::Finalized {
                    e.contents.len() == 0
                } else {
                    e.contents == filled(self.buffer_len)
                }
            }
    }

    /// The model after a new buffer was allocated.
    pub open spec fn created(self) -> RegistryModel {
        RegistryModel {
            entries: self.entries.push(EntryModel { state: Ownership::Owned, contents: filled(self.buffer_len) }),
            ..self
        }
    }

    /// The model after the buffer of `h` was destroyed.
    pub open spec fn finalized(self, h: usize) -> RegistryModel {
        RegistryModel {
            entries: self.entries.update(h - 1, EntryModel { state: Ownership::Finalized, contents: Seq::empty() }),
            ..self
        }
    }

    /// What recording a delivery attempt for `h` answers.
    pub open spec fn delivery_result(self, h: usize, delivered: bool) -> Result<Delivery, HandleError> {
        match self.status(h) {
            Err(e) => Err(e),
            Ok(()) => if self.entry(h).state == Ownership::Transferred {
                Err(HandleError::AlreadyTransferred)
            } else if delivered {
                Ok(Delivery::Delivered)
            } else {
                Ok(Delivery::LeakedUndelivered)
            },
        }
    }

    /// The model after a delivery attempt for `h` was recorded.
    pub open spec fn delivery_recorded(self, h: usize, delivered: bool) -> RegistryModel {
        let state = if delivered {
            Ownership::Transferred
        } else {
            Ownership::Undelivered
        };
        RegistryModel {
            entries: self.entries.update(h - 1, EntryModel { state, ..self.entry(h) }),
            ..self
        }
    }
}

/// Owner of every buffer handed out, keyed by handle.
pub struct Registry {
    buffer_len: usize,
    states: Vec<Ownership>,
    buffers: Vec<Vec<u8>>,
}

impl View for Registry {
    type V = RegistryModel;

    closed spec fn view(&self) -> RegistryModel {
        RegistryModel {
            buffer_len: self.buffer_len as nat,
            entries: Seq::new(
                self.states@.len(),
                |i: int| EntryModel { state: self.states@[i], contents: self.buffers@[i]@ },
            ),
        }
    }
}

impl Registry {
    pub closed spec fn wf(&self) -> bool {
        &&& self.states@.len() == self.buffers@.len()
        &&& self@.valid()
    }

    /// An empty registry whose buffers are one gibibyte long.
    pub fn new() -> (r: Registry)
        ensures
            r.wf(),
            r@.buffer_len == GB,
            r@.entries.len() == 0,
    {
        Registry::with_buffer_len(GB)
    }

    /// An empty registry whose buffers are `len` bytes long.
    pub fn with_buffer_len(len: usize) -> (r: Registry)
        requires
            len > 0,
        ensures
            r.wf(),
            r@.buffer_len == len,
            r@.entries.len() == 0,
    {
        let r = Registry { buffer_len: len, states: Vec::new(), buffers: Vec::new() };
        assert(r@.entries =~= Seq::<EntryModel>::empty());
        r
    }

    /// Allocates a buffer of `buffer_len` sentinel bytes and issues the next
    /// handle for it. The registration declares the buffer's exact length.
    pub fn create_object(&mut self) -> (r: Result<Registration, HandleError>)
        requires
            old(self).wf(),
        ensures
            final(self).wf(),
            old(self)@.entries.len() < usize::MAX ==> {
                &&& r == Ok::<Registration, HandleError>(
                    Registration { handle: (old(self)@.entries.len() + 1) as usize, size: old(self)@.buffer_len as usize },
                )
                &&& final(self)@ == old(self)@.created()
            },
            old(self)@.entries.len() >= usize::MAX ==> {
                &&& r == Err::<Registration, HandleError>(HandleError::Exhausted)
                &&& final(self)@ == old(self)@
            },
    {
        let n = self.states.len();
        if n >= usize::MAX {
            return Err(HandleError::Exhausted);
        }
        let buffer: Vec<u8> = vec![SENTINEL; self.buffer_len];
        assert(buffer@ =~= filled(self.buffer_len as nat));
        let ghost prev = self@;
        self.states.push(Ownership::Owned);
        self.buffers.push(buffer);
        assert(self@.entries =~= prev.created().entries);
        Ok(Registration { handle: n + 1, size: self.buffer_len })
    }

    /// Records whether the notifier accepted the registration of `handle`.
    /// A refused delivery leaves the buffer alive and the handle valid.
    pub fn record_delivery(&mut self, handle: usize, delivered: bool) -> (r: Result<Delivery, HandleError>)
        requires
            old(self).wf(),
        ensures
            final(self).wf(),
            r == old(self)@.delivery_result(handle, delivered),
            r is Ok ==> final(self)@ == old(self)@.delivery_recorded(handle, delivered),
            r is Err ==> final(self)@ == old(self)@,
    {
        if handle == 0 || handle > self.states.len() {
            return Err(HandleError::Unknown);
        }
        let i = handle - 1;
        let state = self.states[i];
        match state {
            Ownership::Finalized => Err(HandleError::Finalized),
            Ownership::Transferred => Err(HandleError::AlreadyTransferred),
            _ => {
                let ghost prev = self@;
                if delivered {
                    self.states.set(i, Ownership::Transferred);
                } else {
                    self.states.set(i, Ownership::Undelivered);
                }
                assert(self@.entries =~= prev.delivery_recorded(handle, delivered).entries);
                if delivered {
                    Ok(Delivery::Delivered)
                } else {
                    Ok(Delivery::LeakedUndelivered)
                }
            },
        }
    }

    /// Checks that `handle` names a live buffer, which then still has its
    /// length and its sentinel first byte. The registry is left as it was.
    pub fn inspect_object(&self, handle: usize) -> (r: Result<(), HandleError>)
        requires
            self.wf(),
        ensures
            r == self@.status(handle),
    {
        if handle == 0 || handle > self.states.len() {
            return Err(HandleError::Unknown);
        }
        let i = handle - 1;
        if self.states[i] == Ownership::Finalized {
            return Err(HandleError::Finalized);
        }
        let buffer = &self.buffers[i];
        // The structural checks of the inspector hold by the invariant.
        assert(self@.entries[i as int].contents == buffer@);
        assert(buffer@.len() == self.buffer_len && buffer@[0] == SENTINEL);
        Ok(())
    }

    /// Destroys the buffer of `handle`: the finalizer that the managed
    /// runtime calls once the handle is unreachable. Later calls with the same
    /// handle are refused.
    pub fn callback(&mut self, handle: usize) -> (r: Result<(), HandleError>)
        requires
            old(self).wf(),
        ensures
            final(self).wf(),
            r == old(self)@.status(handle),
            r is Ok ==> final(self)@ == old(self)@.finalized(handle),
            r is Err ==> final(self)@ == old(self)@,
    {
        if handle == 0 || handle > self.states.len() {
            return Err(HandleError::Unknown);
        }
        let i = handle - 1;
        if self.states[i] == Ownership::Finalized {
            return Err(HandleError::Finalized);
        }
        let ghost prev = self@;
        self.buffers.set(i, Vec::new());
        self.states.set(i, Ownership::Finalized);
        assert(self@.entries =~= prev.finalized(handle).entries);
        Ok(())
    }

    /// The length of every buffer this registry allocates.
    pub fn buffer_len(&self) -> (r: usize)
        ensures
            r == self@.buffer_len,
    {
        self.buffer_len
    }

    /// How many handles have been issued.
    pub fn handle_count(&self) -> (r: usize)
        ensures
            r == self@.entries.len(),
    {
        self.states.len()
    }

    /// The ownership state of `handle`, if it was issued.
    pub fn state(&self, handle: usize) -> (r: Option<Ownership>)
        ensures
            self@.issued(handle) ==> r == Some(self@.entry(handle).state),
            !self@.issued(handle) ==> r is None,
    {
        if handle == 0 || handle > self.states.len() {
            None
        } else {
            Some(self.states[handle - 1])
        }
    }

    /// The bytes of the buffer of `handle`, if it is alive.
    pub fn contents(&self, handle: usize) -> (r: Option<&[u8]>)
        requires
            self.wf(),
        ensures
            self@.status(handle) is Ok ==> (r matches Some(b) && b@ == self@.entry(handle).contents),
            self@.status(handle) is Err ==> r is None,
    {
        if handle == 0 || handle > self.states.len() || self.states[handle - 1] == Ownership::Finalized {
            None
        } else {
            Some(self.buffers[handle - 1].as_slice())
        }
    }
}

} // verus!
