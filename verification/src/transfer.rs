//! I2C transfers and the register-access scripts that driver operations are made of.
//!
//! A driver operation never touches the bus itself. Given the replies to the transfers it has
//! requested so far, it either requests the next transfer or completes with its result; the
//! caller performs each transfer on the device's I2C address and hands back the bytes read.

use vstd::prelude::*;

use crate::error::Error;
use crate::fields::{Edit, edit_register, edit_value};
use crate::registers::{Register, register_address};

verus! {

/// One I2C transaction addressed to the PHY: `write` is sent first (register address, then
/// any data), then `read_len` bytes are read back. A transfer with `read_len == 0` is a plain
/// write.
#[derive(Debug)]
pub struct Transfer {
    /// 7-bit I2C address of the PHY the transfer is addressed to.
    pub address: u8,
    /// Bytes written, starting with the register address.
    pub write: Vec<u8>,
    /// Number of bytes read back after the write.
    pub read_len: usize,
}

/// What an operation asks for next.
#[derive(Debug)]
pub enum Step<T, E> {
    /// Perform this transfer and report its reply.
    Transfer(Transfer),
    /// The operation is over, with this result.
    Complete(Result<T, Error<E>>),
}

/// A step carries exactly the requested transfer, addressed to `address`, or completes exactly
/// when nothing more is requested.
pub open spec fn step_requests<T, E>(step: Step<T, E>, address: u8, request: Option<(Seq<u8>, nat)>) -> bool {
    match step {
        Step::Transfer(t) => t.address == address && request == Some((t.write@, t.read_len as nat)),
        Step::Complete(_) => request is None,
    }
}

/// Byte `j` of reply `k`, or zero where the reply is shorter (such a reply never comes from a
/// transfer that asked for that many bytes).
pub open spec fn reply_at(replies: Seq<Seq<u8>>, k: int, j: int) -> u8 {
    if 0 <= k < replies.len() && 0 <= j < replies[k].len() {
        replies[k][j]
    } else {
        0
    }
}

/// Read byte `j` of reply `k`, or zero where there is no such byte.
pub(crate) fn reply_byte(replies: &Vec<Vec<u8>>, k: usize, j: usize) -> (byte: u8)
    ensures
        byte == reply_at(replies.deep_view(), k as int, j as int),
{
    if k < replies.len() && j < replies[k].len() {
        replies[k][j]
    } else {
        0
    }
}

/// One register access of a script.
#[derive(Clone, Copy)]
pub enum Access {
    /// Write a value to a register.
    Write(Register, u8),
    /// Read the edit's register, then write back the edited value.
    Update(Edit),
    /// Read one register.
    Read(Register),
    /// Read consecutive bytes starting at a register.
    ReadBlock(Register, usize),
}

/// Number of transfers an access takes.
pub open spec fn access_width(access: Access) -> nat {
    match access {
        Access::Update(..) => 2,
        _ => 1,
    }
}

/// The transfer an access requests, given the replies it has already received.
pub open spec fn access_request(access: Access, replies: Seq<Seq<u8>>) -> (Seq<u8>, nat) {
    match access {
        Access::Write(register, value) => (seq![register_address(register), value], 0),
        Access::Update(edit) => if replies.len() == 0 {
            (seq![register_address(edit_register(edit))], 1)
        } else {
            (seq![register_address(edit_register(edit)), edit_value(edit, reply_at(replies, 0, 0))], 0)
        },
        Access::Read(register) => (seq![register_address(register)], 1),
        Access::ReadBlock(register, len) => (seq![register_address(register)], len as nat),
    }
}

/// The next transfer a script requests after the given replies, or `None` once every access
/// has been carried out.
pub open spec fn script_request(script: Seq<Access>, replies: Seq<Seq<u8>>) -> Option<
    (Seq<u8>, nat),
>
    decreases script.len(),
{
    if script.len() == 0 {
        None
    } else if replies.len() < access_width(script[0]) {
        Some(access_request(script[0], replies))
    } else {
        script_request(script.drop_first(), replies.skip(access_width(script[0]) as int))
    }
}

/// Total number of transfers a script takes.
pub open spec fn script_width(script: Seq<Access>) -> nat
    decreases script.len(),
{
    if script.len() == 0 {
        0
    } else {
        access_width(script[0]) + script_width(script.drop_first())
    }
}

/// A script requests exactly `script_width` transfers: it still asks for one after fewer
/// replies, and is over once it has that many.
pub proof fn lemma_script_length(script: Seq<Access>, replies: Seq<Seq<u8>>)
    ensures
        script_request(script, replies) is None <==> replies.len() >= script_width(script),
    decreases script.len(),
{
    if script.len() > 0 && replies.len() >= access_width(script[0]) {
        lemma_script_length(script.drop_first(), replies.skip(access_width(script[0]) as int));
    }
}

/// Each access of a script asks for its own transfers in turn: while the first access still
/// needs replies, the script requests what that access requests.
proof fn lemma_script_request_unfold(script: Seq<Access>, i: int, replies: Seq<Seq<u8>>, consumed: int)
    requires
        0 <= i < script.len(),
        0 <= consumed <= replies.len(),
        replies.len() - consumed >= access_width(script[i]),
    ensures
        script_request(script.skip(i), replies.skip(consumed)) == script_request(
            script.skip(i + 1),
            replies.skip(consumed + access_width(script[i])),
        ),
{
    let s = script.skip(i);
    let r = replies.skip(consumed);
    assert(s[0] == script[i]);
    assert(s.drop_first() =~= script.skip(i + 1));
    assert(r.skip(access_width(script[i]) as int) =~= replies.skip(
        consumed + access_width(script[i]),
    ));
}

/// Build the transfer that an access requests, given that `consumed` replies belong to the
/// accesses before it.
fn access_transfer(access: Access, address: u8, replies: &Vec<Vec<u8>>, consumed: usize) -> (transfer:
    Transfer)
    requires
        consumed <= replies@.len(),
        replies@.len() - consumed < access_width(access),
    ensures
        transfer.address == address,
        (transfer.write@, transfer.read_len as nat) == access_request(
            access,
            replies.deep_view().skip(consumed as int),
        ),
{
    let ghost rest = replies.deep_view().skip(consumed as int);
    let mut write: Vec<u8> = Vec::new();
    match access {
        Access::Write(register, value) => {
            write.push(register.address());
            write.push(value);
            assert(write@ =~= seq![register_address(register), value]);
            Transfer { address, write, read_len: 0 }
        },
        Access::Update(edit) => {
            let register = edit.register();
            write.push(register.address());
            if replies.len() == consumed {
                assert(write@ =~= seq![register_address(register)]);
                Transfer { address, write, read_len: 1 }
            } else {
                let value = reply_byte(replies, consumed, 0);
                assert(reply_at(rest, 0, 0) == reply_at(replies.deep_view(), consumed as int, 0));
                write.push(edit.apply(value));
                assert(write@ =~= seq![register_address(register), edit_value(edit, reply_at(rest, 0, 0))]);
                Transfer { address, write, read_len: 0 }
            }
        },
        Access::Read(register) => {
            write.push(register.address());
            assert(write@ =~= seq![register_address(register)]);
            Transfer { address, write, read_len: 1 }
        },
        Access::ReadBlock(register, len) => {
            write.push(register.address());
            assert(write@ =~= seq![register_address(register)]);
            Transfer { address, write, read_len: len }
        },
    }
}

/// Return the transfer a script requests next, or `None` once it has been carried out.
pub(crate) fn script_next(script: &Vec<Access>, address: u8, replies: &Vec<Vec<u8>>) -> (next: Option<
    Transfer,
>)
    ensures
        match next {
            Some(t) => t.address == address && script_request(script@, replies.deep_view()) == Some(
                (t.write@, t.read_len as nat),
            ),
            None => script_request(script@, replies.deep_view()) is None,
        },
{
    let ghost rs = replies.deep_view();
    let mut i: usize = 0;
    let mut consumed: usize = 0;
    assert(script@.skip(0) =~= script@);
    assert(rs.skip(0) =~= rs);
    while i < script.len()
        invariant
            i <= script@.len(),
            consumed <= replies@.len(),
            rs == replies.deep_view(),
            rs.len() == replies@.len(),
            script_request(script@, rs) == script_request(
                script@.skip(i as int),
                rs.skip(consumed as int),
            ),
        decreases script@.len() - i,
    {
        let access = script[i];
        let width: usize = match access {
            Access::Update(..) => 2,
            _ => 1,
        };
        if replies.len() - consumed < width {
            proof {
                let s = script@.skip(i as int);
                assert(s[0] == access);
                assert(rs.skip(consumed as int).len() == replies@.len() - consumed);
            }
            return Some(access_transfer(access, address, replies, consumed));
        }
        proof {
            lemma_script_request_unfold(script@, i as int, rs, consumed as int);
        }
        consumed = consumed + width;
        i = i + 1;
    }
    assert(script@.skip(i as int).len() == 0);
    None
}

/// Collect a fixed list of accesses into a script.
pub(crate) fn script_from<const N: usize>(accesses: [Access; N]) -> (script: Vec<Access>)
    ensures
        script@ == accesses@,
{
    let mut script: Vec<Access> = Vec::new();
    let mut i: usize = 0;
    while i < N
        invariant
            i <= N,
            accesses@.len() == N,
            script@ == accesses@.subrange(0, i as int),
        decreases N - i,
    {
        script.push(accesses[i]);
        i = i + 1;
        assert(accesses@.subrange(0, i as int) =~= accesses@.subrange(0, i - 1).push(accesses@[i - 1]));
    }
    assert(accesses@.subrange(0, N as int) =~= accesses@);
    script
}

/// Request the script's next transfer, or complete with `result` once the script is done.
pub(crate) fn finish<T, E>(
    script: &Vec<Access>,
    address: u8,
    replies: &Vec<Vec<u8>>,
    result: Result<T, Error<E>>,
) -> (step: Step<T, E>)
    ensures
        step_requests(step, address, script_request(script@, replies.deep_view())),
        step matches Step::Complete(r) ==> r == result,
{
    match script_next(script, address, replies) {
        Some(t) => Step::Transfer(t),
        None => Step::Complete(result),
    }
}

/// Continue an operation after one of its transfers was carried out. A failed transfer ends
/// the operation at once with the bus's own error, unchanged and unhidden, without consulting
/// the operation again, so nothing more is requested; a completed transfer adds its reply, and
/// the operation decides its next step from all replies so far.
pub fn resume<T, E, F>(replies: &mut Vec<Vec<u8>>, outcome: Result<Vec<u8>, E>, operation: F) -> (step:
    Step<T, E>) where F: Fn(&Vec<Vec<u8>>) -> Step<T, E>
    requires
        forall|r: &Vec<Vec<u8>>| #[trigger] operation.requires((r,)),
    ensures
        match outcome {
            Ok(bytes) => final(replies)@ == old(replies)@.push(bytes) && operation.ensures(
                (&*final(replies),),
                step,
            ),
            Err(e) => final(replies)@ == old(replies)@ && step == Step::<T, E>::Complete(
                Err(Error::I2c(e)),
            ),
        },
{
    match outcome {
        Ok(bytes) => {
            replies.push(bytes);
            operation(&*replies)
        },
        Err(e) => Step::Complete(Err(Error::I2c(e))),
    }
}

} // verus!
