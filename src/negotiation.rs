use vstd::prelude::*;

use r_efi::efi::Guid;

use crate::status::{
    GetVariableStatus, Status, BAD_BUFFER_SIZE, BUFFER_TOO_SMALL, NOT_FOUND,
};

verus! {

/// What the read protocol does after one raw read.
#[derive(Clone, Copy, Debug)]
pub enum ReadStep {
    /// Stop with this result: the value's size and attributes, or an error.
    Finish(Result<(usize, u32), Status>),
    /// Read again through a buffer of this many bytes.
    Retry(usize),
}

/// The capacity of the first read: the hint, or an empty probe.
pub open spec fn initial_capacity(size_hint: Option<usize>) -> nat {
    match size_hint {
        Some(h) => h as nat,
        None => 0,
    }
}

/// The decision after a raw read through `capacity` bytes; only a first
/// read may be retried, and a success that claims more bytes than the
/// buffer holds is an inconsistent answer.
pub open spec fn read_step_spec(first_attempt: bool, capacity: nat, status: GetVariableStatus) -> ReadStep {
    match status {
        GetVariableStatus::Success { data_size, attributes } => if data_size <= capacity {
            ReadStep::Finish(Ok((data_size, attributes)))
        } else {
            ReadStep::Finish(Err(Status { code: BAD_BUFFER_SIZE }))
        },
        GetVariableStatus::BufferTooSmall { data_size, attributes: _ } => if first_attempt {
            ReadStep::Retry(data_size)
        } else {
            ReadStep::Finish(Err(Status { code: BUFFER_TOO_SMALL }))
        },
        GetVariableStatus::Error(e) => ReadStep::Finish(Err(e)),
    }
}

/// The capacities that the read protocol asks for, in order, from a
/// platform that answers a read through `c` bytes with `respond(c)`.
pub open spec fn read_capacities(start: nat, respond: spec_fn(nat) -> GetVariableStatus) -> Seq<
    nat,
> {
    match read_step_spec(true, start, respond(start)) {
        ReadStep::Retry(n) => seq![start, n as nat],
        ReadStep::Finish(_) => seq![start],
    }
}

/// The result of the read protocol against such a platform.
pub open spec fn read_outcome(start: nat, respond: spec_fn(nat) -> GetVariableStatus) -> Result<
    (usize, u32),
    Status,
> {
    match read_step_spec(true, start, respond(start)) {
        ReadStep::Finish(r) => r,
        ReadStep::Retry(n) => match read_step_spec(false, n as nat, respond(n as nat)) {
            ReadStep::Finish(r) => r,
            ReadStep::Retry(_) => Err(Status { code: BUFFER_TOO_SMALL }),
        },
    }
}

/// The result of a size probe, a read through an empty buffer: "too small"
/// carries the size; a success there is an inconsistent answer.
pub open spec fn probe_outcome_spec(status: GetVariableStatus) -> Result<(usize, u32), Status> {
    match status {
        GetVariableStatus::BufferTooSmall { data_size, attributes } => Ok((data_size, attributes)),
        GetVariableStatus::Success { .. } => Err(Status { code: BAD_BUFFER_SIZE }),
        GetVariableStatus::Error(e) => Err(e),
    }
}

/// Decides what follows a raw read.
pub fn read_step(first_attempt: bool, capacity: usize, status: GetVariableStatus) -> (r: ReadStep)
    ensures
        r == read_step_spec(first_attempt, capacity as nat, status),
        !first_attempt ==> r is Finish,
{
    match status {
        GetVariableStatus::Success { data_size, attributes } => {
            if data_size <= capacity {
                ReadStep::Finish(Ok((data_size, attributes)))
            } else {
                ReadStep::Finish(Err(Status { code: BAD_BUFFER_SIZE }))
            }
        },
        GetVariableStatus::BufferTooSmall { data_size, attributes: _ } => {
            if first_attempt {
                ReadStep::Retry(data_size)
            } else {
                ReadStep::Finish(Err(Status { code: BUFFER_TOO_SMALL }))
            }
        },
        GetVariableStatus::Error(e) => ReadStep::Finish(Err(e)),
    }
}

/// Turns the answer to a size probe into the value's size and attributes.
pub fn probe_outcome(status: GetVariableStatus) -> (r: Result<(usize, u32), Status>)
    ensures
        r == probe_outcome_spec(status),
{
    match status {
        GetVariableStatus::BufferTooSmall { data_size, attributes } => Ok((data_size, attributes)),
        GetVariableStatus::Success { .. } => Err(Status { code: BAD_BUFFER_SIZE }),
        GetVariableStatus::Error(e) => Err(e),
    }
}

/// What the enumeration protocol does after one raw call.
#[derive(Clone, Copy, Debug)]
pub enum NameStep {
    /// Stop with this result: the length of the next name, or an error.
    Finish(Result<usize, Status>),
    /// Call again with a buffer of this many code units.
    Retry(usize),
}

/// The decision after a raw call for the next name through `capacity` code
/// units, which answered `status` and the size `reported`. Only a first
/// call may be retried, and only for a larger buffer; a size that does not
/// fit the buffer it describes is an inconsistent answer.
pub open spec fn name_step_spec(first_attempt: bool, capacity: nat, status: Status, reported: usize) -> NameStep {
    if status.code == BUFFER_TOO_SMALL && first_attempt {
        if reported > capacity {
            NameStep::Retry(reported)
        } else {
            NameStep::Finish(Err(Status { code: BAD_BUFFER_SIZE }))
        }
    } else if status.is_error_spec() {
        NameStep::Finish(Err(status))
    } else if reported <= capacity {
        NameStep::Finish(Ok(reported))
    } else {
        NameStep::Finish(Err(Status { code: BAD_BUFFER_SIZE }))
    }
}

/// Decides what follows a raw call for the next name.
pub fn name_step(first_attempt: bool, capacity: usize, status: Status, reported: usize) -> (r: NameStep)
    ensures
        r == name_step_spec(first_attempt, capacity as nat, status, reported),
        !first_attempt ==> r is Finish,
        r matches NameStep::Retry(n) ==> n > capacity,
{
    if status.code == BUFFER_TOO_SMALL && first_attempt {
        if reported > capacity {
            NameStep::Retry(reported)
        } else {
            NameStep::Finish(Err(Status { code: BAD_BUFFER_SIZE }))
        }
    } else if status.is_error() {
        NameStep::Finish(Err(status))
    } else if reported <= capacity {
        NameStep::Finish(Ok(reported))
    } else {
        NameStep::Finish(Err(Status { code: BAD_BUFFER_SIZE }))
    }
}

/// A buffer of `len` code units that starts with the previous name and is
/// zero after it.
pub open spec fn seeded(prev: Seq<u16>, len: nat) -> Seq<u16> {
    prev + Seq::new((len - prev.len()) as nat, |i: int| 0u16)
}

/// A platform's answer to one call for the next name: the status, the size
/// it reports, and what the name buffer and the namespace then hold.
pub struct NameReply {
    pub status: Status,
    pub size: usize,
    pub buffer: Seq<u16>,
    pub namespace: Guid,
}

/// The result of the enumeration protocol from `(prev, namespace)` against a
/// platform that answers a call with buffer `b` and namespace `g` with
/// `reply(b, g)`: the next name and its namespace, or an error.
pub open spec fn next_name_outcome(
    prev: Seq<u16>,
    namespace: Guid,
    reply: spec_fn(Seq<u16>, Guid) -> NameReply,
) -> Result<(Seq<u16>, Guid), Status> {
    let first = reply(prev, namespace);
    match name_step_spec(true, prev.len(), first.status, first.size) {
        NameStep::Finish(Ok(len)) => Ok((first.buffer.subrange(0, len as int), first.namespace)),
        NameStep::Finish(Err(e)) => Err(e),
        NameStep::Retry(n) => {
            let second = reply(seeded(prev, n as nat), namespace);
            match name_step_spec(false, n as nat, second.status, second.size) {
                NameStep::Finish(Ok(len)) => Ok(
                    (second.buffer.subrange(0, len as int), second.namespace),
                ),
                NameStep::Finish(Err(e)) => Err(e),
                NameStep::Retry(_) => Err(Status { code: BUFFER_TOO_SMALL }),
            }
        },
    }
}

/// A "not found" answer ends a walk through the list: the protocol hands it
/// on as its result, without a second call.
pub proof fn lemma_not_found_ends_walk(
    prev: Seq<u16>,
    namespace: Guid,
    reply: spec_fn(Seq<u16>, Guid) -> NameReply,
)
    requires
        reply(prev, namespace).status == (Status { code: NOT_FOUND }),
    ensures
        next_name_outcome(prev, namespace, reply) == Err::<(Seq<u16>, Guid), Status>(
            Status { code: NOT_FOUND },
        ),
{
}

/// A platform that keeps asking for a larger name buffer makes the walk
/// fail with "buffer too small" after the second call.
pub proof fn lemma_endless_growth_gives_up(
    prev: Seq<u16>,
    namespace: Guid,
    reply: spec_fn(Seq<u16>, Guid) -> NameReply,
)
    requires
        forall|b: Seq<u16>, g: Guid|
            #![trigger reply(b, g)]
            reply(b, g).status == (Status { code: BUFFER_TOO_SMALL }) && reply(b, g).size
                > b.len(),
    ensures
        next_name_outcome(prev, namespace, reply) == Err::<(Seq<u16>, Guid), Status>(
            Status { code: BUFFER_TOO_SMALL },
        ),
{
    let first = reply(prev, namespace);
    let n = first.size;
    assert(reply(seeded(prev, n as nat), namespace).status.code == BUFFER_TOO_SMALL);
}

} // verus!
