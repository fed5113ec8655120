use vstd::prelude::*;
use crate::registry::{filled, Delivery, HandleError, Ownership, RegistryModel, SENTINEL};

verus! {

/// A buffer that `create_object` succeeds in making holds exactly
/// `buffer_len` bytes, each of them the sentinel, and its handle is live and
/// non-zero.
pub proof fn created_buffer_is_filled(m: RegistryModel)
    requires
        m.valid(),
        m.entries.len() < usize::MAX,
    ensures
        m.created().valid(),
        ({
            let h = (m.entries.len() + 1) as usize;
            &&& h != 0
            &&& m.created().status(h) is Ok
            &&& m.created().entry(h).contents.len() == m.buffer_len
            &&& forall|i: int| 0 <= i < m.buffer_len ==> #[trigger] m.created().entry(h).contents[i] == SENTINEL
        }),
{
    let c = m.created();
    assert forall|i: int| 0 <= i < c.entries.len() implies {
        let e = #[trigger] c.entries[i];
        if e.state == Ownership::Finalized {
            e.contents.len() == 0
        } else {
            e.contents == filled(c.buffer_len)
        }
    } by {
        if i < m.entries.len() {
            assert(c.entries[i] == m.entries[i]);
        }
    }
}

/// Every live handle's buffer still has the length that its registration
/// declared and the sentinel in every byte, so inspecting it succeeds; and
/// since inspecting changes nothing, it succeeds again every time after.
pub proof fn live_buffer_keeps_declared_size(m: RegistryModel, h: usize)
    requires
        m.valid(),
        m.status(h) is Ok,
    ensures
        m.entry(h).contents.len() == m.buffer_len,
        m.entry(h).contents == filled(m.buffer_len),
        m.entry(h).contents[0] == SENTINEL,
{
    assert(m.entries[h - 1] == m.entry(h));
}

/// Once a handle has been finalized, inspecting it, finalizing it again or
/// recording a delivery for it is refused as `Finalized`, and the registry
/// stays valid.
pub proof fn finalized_handle_is_dead(m: RegistryModel, h: usize)
    requires
        m.valid(),
        m.status(h) is Ok,
    ensures
        m.finalized(h).valid(),
        m.finalized(h).status(h) == Err::<(), HandleError>(HandleError::Finalized),
        forall|d: bool| #[trigger] m.finalized(h).delivery_result(h, d) == Err::<Delivery, HandleError>(HandleError::Finalized),
{
    let f = m.finalized(h);
    assert forall|i: int| 0 <= i < f.entries.len() implies {
        let e = #[trigger] f.entries[i];
        if e.state == Ownership::Finalized {
            e.contents.len() == 0
        } else {
            e.contents == filled(f.buffer_len)
        }
    } by {
        if i != h - 1 {
            assert(f.entries[i] == m.entries[i]);
        }
    }
}

/// A refused delivery destroys nothing: the handle stays live with the same
/// bytes, so it can still be inspected and finalized.
pub proof fn refused_delivery_keeps_buffer(m: RegistryModel, h: usize)
    requires
        m.valid(),
        m.delivery_result(h, false) is Ok,
    ensures
        m.delivery_recorded(h, false).valid(),
        m.delivery_recorded(h, false).status(h) is Ok,
        m.delivery_recorded(h, false).entry(h).state == Ownership::Undelivered,
        m.delivery_recorded(h, false).entry(h).contents == m.entry(h).contents,
        m.delivery_recorded(h, false).entry(h).contents == filled(m.buffer_len),
{
    let d = m.delivery_recorded(h, false);
    assert(m.entries[h - 1] == m.entry(h));
    assert forall|i: int| 0 <= i < d.entries.len() implies {
        let e = #[trigger] d.entries[i];
        if e.state == Ownership::Finalized {
            e.contents.len() == 0
        } else {
            e.contents == filled(d.buffer_len)
        }
    } by {
        if i != h - 1 {
            assert(d.entries[i] == m.entries[i]);
        }
    }
}

} // verus!
