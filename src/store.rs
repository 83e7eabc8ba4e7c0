use vstd::prelude::*;

use r_efi::efi::Guid;

use crate::negotiation::{
    initial_capacity, probe_outcome_spec, read_capacities, read_outcome, read_step_spec, ReadStep,
};
use crate::status::{GetVariableStatus, Status, BUFFER_TOO_SMALL, NOT_FOUND};

verus! {

/// The records a platform keeps: for each name and namespace, the bytes and
/// the attribute flags.
pub type VariableStore = Map<(Seq<u16>, Guid), (Seq<u8>, u32)>;

/// How a platform that keeps `store` answers a read through `capacity` bytes.
pub open spec fn store_response(store: VariableStore, name: Seq<u16>, namespace: Guid, capacity: nat) -> GetVariableStatus {
    if store.contains_key((name, namespace)) {
        let record = store[(name, namespace)];
        if capacity < record.0.len() {
            GetVariableStatus::BufferTooSmall {
                data_size: record.0.len() as usize,
                attributes: record.1,
            }
        } else {
            GetVariableStatus::Success { data_size: record.0.len() as usize, attributes: record.1 }
        }
    } else {
        GetVariableStatus::Error(Status { code: NOT_FOUND })
    }
}

/// The store after a write of `data` with `attributes`.
pub open spec fn store_write(
    store: VariableStore,
    name: Seq<u16>,
    namespace: Guid,
    attributes: u32,
    data: Seq<u8>,
) -> VariableStore {
    store.insert((name, namespace), (data, attributes))
}

/// Reading a record back after writing it: whatever the size hint, the read
/// protocol reports the written size and attributes, and the record holds
/// the written bytes.
pub proof fn lemma_read_after_write(
    store: VariableStore,
    name: Seq<u16>,
    namespace: Guid,
    attributes: u32,
    data: Seq<u8>,
    size_hint: Option<usize>,
)
    requires
        data.len() <= usize::MAX,
    ensures
        ({
            let written = store_write(store, name, namespace, attributes, data);
            &&& read_outcome(
                initial_capacity(size_hint),
                |c: nat| store_response(written, name, namespace, c),
            ) == Ok::<(usize, u32), Status>((data.len() as usize, attributes))
            &&& written[(name, namespace)].0 == data
        }),
{
    let written = store_write(store, name, namespace, attributes, data);
    assert(written.contains_key((name, namespace)));
    assert(written[(name, namespace)] == (data, attributes));
}

/// A size hint below the record's size still reads it, with exactly two
/// raw reads: the second through a buffer of the record's size.
pub proof fn lemma_low_hint_reads_twice(store: VariableStore, name: Seq<u16>, namespace: Guid, hint: usize)
    requires
        store.contains_key((name, namespace)),
        hint < store[(name, namespace)].0.len() <= usize::MAX,
    ensures
        ({
            let respond = |c: nat| store_response(store, name, namespace, c);
            let record = store[(name, namespace)];
            &&& read_outcome(hint as nat, respond) == Ok::<(usize, u32), Status>(
                (record.0.len() as usize, record.1),
            )
            &&& read_capacities(hint as nat, respond) == seq![hint as nat, record.0.len()]
        }),
{
}

/// A platform that answers every read with "buffer too small" makes the
/// read fail with that status after exactly two raw reads.
pub proof fn lemma_endless_too_small_gives_up(start: nat, respond: spec_fn(nat) -> GetVariableStatus)
    requires
        forall|c: nat| #[trigger] respond(c) is BufferTooSmall,
    ensures
        read_outcome(start, respond) == Err::<(usize, u32), Status>(
            Status { code: BUFFER_TOO_SMALL },
        ),
        read_capacities(start, respond).len() == 2,
{
    assert(respond(start) is BufferTooSmall);
    let n = match read_step_spec(true, start, respond(start)) {
        ReadStep::Retry(n) => n,
        ReadStep::Finish(_) => 0,
    };
    assert(respond(n as nat) is BufferTooSmall);
}

/// The size probe of an existing, non-empty record gives the size and
/// attributes that a full read reports, whatever its size hint, while
/// reading through an empty buffer.
pub proof fn lemma_probe_matches_full_read(
    store: VariableStore,
    name: Seq<u16>,
    namespace: Guid,
    size_hint: Option<usize>,
)
    requires
        store.contains_key((name, namespace)),
        0 < store[(name, namespace)].0.len() <= usize::MAX,
    ensures
        ({
            let record = store[(name, namespace)];
            let full = read_outcome(
                initial_capacity(size_hint),
                |c: nat| store_response(store, name, namespace, c),
            );
            &&& probe_outcome_spec(store_response(store, name, namespace, 0)) == full
            &&& full == Ok::<(usize, u32), Status>((record.0.len() as usize, record.1))
        }),
{
}

} // verus!
