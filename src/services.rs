use vstd::prelude::*;

use r_efi::efi::Guid;
use vstd::std_specs::convert::TryFromSpec;

use crate::negotiation::{
    initial_capacity, name_step, name_step_spec, next_name_outcome, probe_outcome,
    probe_outcome_spec, read_outcome, read_step, read_step_spec, seeded, NameReply, NameStep,
    ReadStep,
};
use crate::status::{
    classify_read, classify_reply, write_result, GetVariableStatus, Status, VariableInfo,
    INVALID_PARAMETER,
};
use crate::variable::{contains_terminator, copy_name, has_terminator};

verus! {

/// The operations of the runtime-services table.
///
/// An implementor supplies one raw call per table slot; the checked
/// operations built on them (terminator checks, buffer negotiation,
/// decoding) are provided.
///
/// The spec functions describe the platform behind an implementor: what one
/// call of a slot answers to given arguments, the same each time within an
/// operation. The raw calls' contracts tie them to what the calls return;
/// the provided operations are proved for every platform so described.
/// Nothing here fixes them: an implementor that states none leaves them
/// unspecified.
pub trait RuntimeServices: Sized {
    /// What the platform answers to a read of the record `(name, namespace)`
    /// through a buffer of `capacity` bytes: a status, the size it reports,
    /// and the record's attribute flags.
    closed spec fn variable_reply(&self, name: Seq<u16>, namespace: Guid, capacity: nat) -> (Status, usize, u32) {
        arbitrary()
    }

    /// The bytes of the record `(name, namespace)`.
    closed spec fn variable_bytes(&self, name: Seq<u16>, namespace: Guid) -> Seq<u8> {
        arbitrary()
    }

    /// What the platform answers to a write of `data` with `attributes` to
    /// the record `(name, namespace)`.
    closed spec fn write_reply(&self, name: Seq<u16>, namespace: Guid, attributes: u32, data: Seq<u8>) -> Status {
        arbitrary()
    }

    /// What the platform answers to a call for the name after the one at the
    /// front of `buffer` (whose length is the capacity offered).
    closed spec fn next_name_reply(&self, buffer: Seq<u16>, namespace: Guid) -> NameReply {
        arbitrary()
    }

    /// What the platform answers to a query of the storage figures for
    /// `attributes`: a status, and the figures it filled in.
    closed spec fn info_reply(&self, attributes: u32) -> (Status, VariableInfo) {
        arbitrary()
    }

    /// One call of the slot that reports storage figures for `attributes`.
    fn query_variable_info_raw(&self, attributes: u32) -> (r: (Status, VariableInfo))
        ensures
            r == self.info_reply(attributes),
    ;

    /// One call of the write slot.
    fn set_variable_raw(
        &self,
        name: &[u16],
        namespace: &Guid,
        attributes: u32,
        data: &[u8],
    ) -> (r: Status)
        ensures
            r == self.write_reply(name@, *namespace, attributes, data@),
    ;

    /// One call of the read slot through `data`; an empty `data` asks for the
    /// size alone. Returns the status, the size reported and the attribute
    /// flags. The buffer keeps its length, and a call that is no error and
    /// reports a size that fits leaves the record's bytes at its front.
    fn get_variable_raw(&self, name: &[u16], namespace: &Guid, data: &mut Vec<u8>) -> (r: (
        Status,
        usize,
        u32,
    ))
        ensures
            r == self.variable_reply(name@, *namespace, old(data)@.len()),
            final(data)@.len() == old(data)@.len(),
            !r.0.is_error_spec() && r.1 <= old(data)@.len() ==> final(data)@.subrange(0, r.1 as int)
                == self.variable_bytes(name@, *namespace),
    ;

    /// One call of the enumeration slot, with `name` holding the previous
    /// name and offering its length as capacity; returns the status and the
    /// size that the platform reports. The buffer keeps its length.
    fn get_next_variable_name_raw(&self, name: &mut Vec<u16>, namespace: &mut Guid) -> (r: (
        Status,
        usize,
    ))
        ensures
            ({
                let reply = self.next_name_reply(old(name)@, *old(namespace));
                &&& r.0 == reply.status
                &&& r.1 == reply.size
                &&& final(name)@ == reply.buffer
                &&& *final(namespace) == reply.namespace
            }),
            final(name)@.len() == old(name)@.len(),
    ;

    /// Writes a variable without checking its name.
    fn set_variable_unchecked(
        &self,
        name: &[u16],
        namespace: &Guid,
        attributes: u32,
        data: &[u8],
    ) -> (r: Result<(), Status>)
        ensures
            r == write_result(self.write_reply(name@, *namespace, attributes, data@)),
    {
        let status = self.set_variable_raw(name, namespace, attributes, data);
        if status.is_error() {
            Err(status)
        } else {
            Ok(())
        }
    }

    /// One read of a variable through `data`, without checking its name,
    /// with the platform's status sorted into the three cases that matter.
    fn get_variable_unchecked(&self, name: &[u16], namespace: &Guid, data: &mut Vec<u8>) -> (r:
        GetVariableStatus)
        ensures
            r == classify_reply(self.variable_reply(name@, *namespace, old(data)@.len())),
            final(data)@.len() == old(data)@.len(),
            r matches GetVariableStatus::Success { data_size, attributes: _ } ==> (data_size
                <= old(data)@.len() ==> final(data)@.subrange(0, data_size as int)
                == self.variable_bytes(name@, *namespace)),
    {
        let (status, data_size, attributes) = self.get_variable_raw(name, namespace, data);
        classify_read(status, data_size, attributes)
    }

    /// Reads a variable, growing the buffer once if the platform asks for
    /// more room, and decodes it; returns the value and its attributes.
    fn get_variable<T: TryFrom<Vec<u8>>>(
        &self,
        name: &[u16],
        namespace: &Guid,
        size_hint: Option<usize>,
    ) -> (r: Result<(T, u32), Status>)
        ensures
            !has_terminator(name@) ==> r == Err::<(T, u32), Status>(
                Status { code: INVALID_PARAMETER },
            ),
            has_terminator(name@) ==> match read_outcome(
                initial_capacity(size_hint),
                |c: nat| classify_reply(self.variable_reply(name@, *namespace, c)),
            ) {
                Err(e) => r == Err::<(T, u32), Status>(e),
                Ok((_, attributes)) => match r {
                    Ok((v, a)) => a == attributes && (T::obeys_try_from_spec() ==> exists|
                        bytes: Vec<u8>,
                    |
                        bytes@ == self.variable_bytes(name@, *namespace) && T::try_from_spec(bytes)
                            == Ok::<T, T::Error>(v)),
                    Err(e) => e == Status { code: INVALID_PARAMETER } && (T::obeys_try_from_spec()
                        ==> exists|bytes: Vec<u8>|
                        bytes@ == self.variable_bytes(name@, *namespace) && T::try_from_spec(
                            bytes,
                        ) is Err),
                },
            },
    {
        if !contains_terminator(name) {
            return Err(Status { code: INVALID_PARAMETER });
        }
        let ghost respond = |c: nat| classify_reply(self.variable_reply(name@, *namespace, c));
        let ghost start = initial_capacity(size_hint);
        let mut data: Vec<u8> = Vec::new();
        match size_hint {
            Some(h) => {
                data.resize(h, 0);
            },
            None => {},
        }
        let mut first_attempt = true;
        loop
            invariant
                has_terminator(name@),
                start == initial_capacity(size_hint),
                respond == (|c: nat| classify_reply(self.variable_reply(name@, *namespace, c))),
                first_attempt ==> data@.len() == start,
                !first_attempt ==> (read_step_spec(true, start, respond(start)) matches ReadStep::Retry(
                    n,
                ) && data@.len() == n),
            decreases (if first_attempt { 1int } else { 0int }),
        {
            let capacity = data.len();
            let status = self.get_variable_unchecked(name, namespace, &mut data);
            match read_step(first_attempt, capacity, status) {
                ReadStep::Finish(Ok((size, attributes))) => {
                    data.truncate(size);
                    let ghost bytes = data;
                    assert(bytes@ == self.variable_bytes(name@, *namespace));
                    return match T::try_from(data) {
                        Ok(v) => Ok((v, attributes)),
                        Err(_) => Err(Status { code: INVALID_PARAMETER }),
                    };
                },
                ReadStep::Finish(Err(e)) => {
                    return Err(e);
                },
                ReadStep::Retry(n) => {
                    first_attempt = false;
                    data.resize(n, 0);
                },
            }
        }
    }
    /// The storage figures for `attributes`, or the platform's error.
    fn query_variable_info(&self, attributes: u32) -> (r: Result<VariableInfo, Status>)
        ensures
            ({
                let (status, info) = self.info_reply(attributes);
                r == if status.is_error_spec() {
                    Err::<VariableInfo, Status>(status)
                } else {
                    Ok::<VariableInfo, Status>(info)
                }
            }),
    {
        let (status, info) = self.query_variable_info_raw(attributes);
        if status.is_error() {
            Err(status)
        } else {
            Ok(info)
        }
    }

    /// Writes a variable; the name must hold a terminator.
    fn set_variable<T: AsRef<[u8]>>(
        &self,
        name: &[u16],
        namespace: &Guid,
        attributes: u32,
        data: &T,
    ) -> (r: Result<(), Status>)
        ensures
            !has_terminator(name@) ==> r == Err::<(), Status>(Status { code: INVALID_PARAMETER }),
            has_terminator(name@) ==> exists|bytes: Seq<u8>|
                r == write_result(self.write_reply(name@, *namespace, attributes, bytes)),
    {
        if !contains_terminator(name) {
            return Err(Status { code: INVALID_PARAMETER });
        }
        let bytes = value_bytes(data);
        self.set_variable_unchecked(name, namespace, attributes, bytes)
    }

    /// Learns a variable's size and attributes from one read through an
    /// empty buffer, without reading its bytes.
    fn get_variable_size_and_attributes(&self, name: &[u16], namespace: &Guid) -> (r: Result<
        (usize, u32),
        Status,
    >)
        ensures
            !has_terminator(name@) ==> r == Err::<(usize, u32), Status>(
                Status { code: INVALID_PARAMETER },
            ),
            has_terminator(name@) ==> r == probe_outcome_spec(
                classify_reply(self.variable_reply(name@, *namespace, 0)),
            ),
    {
        if !contains_terminator(name) {
            return Err(Status { code: INVALID_PARAMETER });
        }
        let mut empty: Vec<u8> = Vec::new();
        let status = self.get_variable_unchecked(name, namespace, &mut empty);
        probe_outcome(status)
    }

    /// Finds the name after `(prev_name, prev_namespace)` into `next_name`
    /// and `next_namespace`, growing the buffer once if the platform asks
    /// for more room.
    fn get_next_variable_name_unchecked(
        &self,
        prev_name: &[u16],
        prev_namespace: &Guid,
        next_name: &mut Vec<u16>,
        next_namespace: &mut Guid,
    ) -> (r: Result<(), Status>)
        requires
            prev_name@.len() > 0,
        ensures
            match next_name_outcome(
                prev_name@,
                *prev_namespace,
                |b: Seq<u16>, g: Guid| self.next_name_reply(b, g),
            ) {
                Ok((n, g)) => r is Ok && final(next_name)@ == n && *final(next_namespace) == g,
                Err(e) => r == Err::<(), Status>(e),
            },
    {
        let ghost reply = |b: Seq<u16>, g: Guid| self.next_name_reply(b, g);
        let ghost prev = prev_name@;
        let mut buffer: Vec<u16> = copy_name(prev_name);
        let mut namespace: Guid = *prev_namespace;
        let mut first_attempt = true;
        loop
            invariant
                prev == prev_name@,
                reply == (|b: Seq<u16>, g: Guid| self.next_name_reply(b, g)),
                namespace == *prev_namespace,
                first_attempt ==> buffer@ == prev,
                !first_attempt ==> ({
                    let first = reply(prev, *prev_namespace);
                    &&& name_step_spec(true, prev.len(), first.status, first.size) matches NameStep::Retry(n)
                    &&& buffer@ == seeded(prev, n as nat)
                }),
            decreases (if first_attempt { 1int } else { 0int }),
        {
            let capacity = buffer.len();
            let (status, reported) = self.get_next_variable_name_raw(&mut buffer, &mut namespace);
            match name_step(first_attempt, capacity, status, reported) {
                NameStep::Finish(Ok(len)) => {
                    buffer.truncate(len);
                    *next_name = buffer;
                    *next_namespace = namespace;
                    return Ok(());
                },
                NameStep::Finish(Err(e)) => {
                    return Err(e);
                },
                NameStep::Retry(n) => {
                    first_attempt = false;
                    buffer = copy_name(prev_name);
                    buffer.resize(n, 0);
                    namespace = *prev_namespace;
                    assert(buffer@ =~= seeded(prev, n as nat));
                },
            }
        }
    }

    /// Finds the name and namespace after `(prev_name, prev_namespace)`;
    /// the platform's "not found" marks the end of the list.
    fn get_next_variable_name(&self, prev_name: &[u16], prev_namespace: &Guid) -> (r: Result<
        (Vec<u16>, Guid),
        Status,
    >)
        ensures
            prev_name@.len() == 0 ==> r == Err::<(Vec<u16>, Guid), Status>(
                Status { code: INVALID_PARAMETER },
            ),
            prev_name@.len() > 0 ==> match next_name_outcome(
                prev_name@,
                *prev_namespace,
                |b: Seq<u16>, g: Guid| self.next_name_reply(b, g),
            ) {
                Ok((n, g)) => r is Ok && r->Ok_0.0@ == n && r->Ok_0.1 == g,
                Err(e) => r == Err::<(Vec<u16>, Guid), Status>(e),
            },
    {
        if prev_name.len() == 0 {
            return Err(Status { code: INVALID_PARAMETER });
        }
        let mut next_name: Vec<u16> = Vec::new();
        let mut next_namespace: Guid = *prev_namespace;
        match self.get_next_variable_name_unchecked(
            prev_name,
            prev_namespace,
            &mut next_name,
            &mut next_namespace,
        ) {
            Ok(()) => Ok((next_name, next_namespace)),
            Err(e) => Err(e),
        }
    }
}

/// Relies on AsRef::as_ref: the bytes that a value presents for storage.
#[verifier::external_body]
fn value_bytes<T: AsRef<[u8]>>(value: &T) -> &[u8] {
    value.as_ref()
}

} // verus!
