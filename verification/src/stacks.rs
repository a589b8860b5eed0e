//! Docker stacks: what a stack definition may be, and how a stack's state
//! is read from its containers.

use vstd::prelude::*;

use crate::text::utf8_len;

use crate::text::{chars_of, str_eq, trimmed, trim_str};

verus! {

/// A request to create a stack.
pub struct CreateStackRequest {
    pub name: String,
    pub yaml: String,
}

/// A new definition for a stack.
pub struct UpdateStackRequest {
    pub yaml: String,
}

/// Why a stack request is refused.
#[derive(Debug, Clone, Copy, PartialEq, Eq, Structural)]
pub enum StackError {
    InvalidName,
    YamlTooLarge,
}

impl StackError {
    pub fn message(&self) -> (m: &'static str)
        ensures
            m@ == match self {
                StackError::InvalidName => "Invalid stack name"@,
                StackError::YamlTooLarge => "YAML too large (max 64KB)"@,
            },
    {
        match self {
            StackError::InvalidName => "Invalid stack name",
            StackError::YamlTooLarge => "YAML too large (max 64KB)",
        }
    }
}

/// A new stack: a name that is not blank and at most 100 bytes, and a
/// definition of at most 64 KiB.
pub fn check_new_stack(req: &CreateStackRequest) -> (r: Result<(), StackError>)
    ensures
        (trimmed(req.name@).len() == 0 || utf8_len(req.name@) > 100)
            ==> r == Err::<(), StackError>(StackError::InvalidName),
        !(trimmed(req.name@).len() == 0 || utf8_len(req.name@) > 100) && utf8_len(req.yaml@) > 65536
            ==> r == Err::<(), StackError>(StackError::YamlTooLarge),
        !(trimmed(req.name@).len() == 0 || utf8_len(req.name@) > 100) && utf8_len(req.yaml@) <= 65536
            ==> r is Ok,
{
    let t = trim_str(req.name.as_str());
    if chars_of(t.as_str()).len() == 0 || req.name.as_str().as_bytes().len() > 100 {
        return Err(StackError::InvalidName);
    }
    check_yaml(req.yaml.as_str())
}

/// A stack definition is at most 64 KiB.
pub fn check_yaml(yaml: &str) -> (r: Result<(), StackError>)
    ensures
        r is Ok <==> utf8_len(yaml@) <= 65536,
        r is Err ==> r == Err::<(), StackError>(StackError::YamlTooLarge),
{
    if yaml.as_bytes().len() > 65536 {
        Err(StackError::YamlTooLarge)
    } else {
        Ok(())
    }
}

/// The number of services of a parsed definition (none when the parse did
/// not give a list), as a 32-bit column.
pub fn service_count(parsed_len: Option<usize>) -> (n: i32)
    ensures
        n == match parsed_len { Some(l) => l as i32, None => 0i32 },
{
    match parsed_len {
        Some(l) => {
            #[verifier::truncate]
            (l as i32)
        },
        None => 0,
    }
}

/// A container of the server, as the agent lists it.
pub struct ContainerInfo {
    pub stack_id: Option<String>,
    pub status: Option<String>,
}

/// The containers of one stack.
pub open spec fn of_stack(apps: Seq<(Option<Seq<char>>, Option<Seq<char>>)>, id: Seq<char>) -> Seq<(Option<Seq<char>>, Option<Seq<char>>)> {
    apps.filter(|a: (Option<Seq<char>>, Option<Seq<char>>)| a.0 == Some(id))
}

/// The state of a stack from its containers: `removed` without any,
/// `running` when all run, `stopped` when none do, `partial` else.
pub open spec fn stack_status_of(running: nat, total: nat) -> Seq<char> {
    if total == 0 { "removed"@ } else if running == total { "running"@ } else if running == 0 { "stopped"@ } else { "partial"@ }
}

/// How many of a stack's containers run, how many it has, and its state.
pub fn stack_status(apps: &Vec<ContainerInfo>, stack_id: &str) -> (r: (usize, usize, &'static str))
    ensures
        ({
            let m = apps@.map_values(|a: ContainerInfo| (a.stack_id.deep_view(), a.status.deep_view()));
            let mine = of_stack(m, stack_id@);
            &&& r.1 == mine.len()
            &&& r.0 == mine.filter(|a: (Option<Seq<char>>, Option<Seq<char>>)| a.1 == Some("running"@)).len()
            &&& r.2@ == stack_status_of(r.0 as nat, r.1 as nat)
        }),
{
    let ghost m = apps@.map_values(|a: ContainerInfo| (a.stack_id.deep_view(), a.status.deep_view()));
    let mut running: usize = 0;
    let mut total: usize = 0;
    let mut i: usize = 0;
    while i < apps.len()
        invariant
            i <= apps@.len(),
            m == apps@.map_values(|a: ContainerInfo| (a.stack_id.deep_view(), a.status.deep_view())),
            total == of_stack(m.take(i as int), stack_id@).len(),
            running == of_stack(m.take(i as int), stack_id@).filter(|a: (Option<Seq<char>>, Option<Seq<char>>)| a.1 == Some("running"@)).len(),
            running <= total <= i,
        decreases apps@.len() - i,
    {
        assert(m.take(i + 1).drop_last() =~= m.take(i as int));
        assert(m.take(i + 1).last() == (apps@[i as int].stack_id.deep_view(), apps@[i as int].status.deep_view()));
        reveal(Seq::filter);
        let a = &apps[i];
        let mine = match &a.stack_id {
            Some(s) => str_eq(s.as_str(), stack_id),
            None => false,
        };
        if mine {
            let ghost before = of_stack(m.take(i as int), stack_id@);
            assert(of_stack(m.take(i + 1), stack_id@) == before.push(m[i as int]));
            assert(before.push(m[i as int]).drop_last() =~= before);
            total = total + 1;
            let run = match &a.status {
                Some(s) => str_eq(s.as_str(), "running"),
                None => false,
            };
            if run {
                running = running + 1;
            }
        }
        i = i + 1;
    }
    assert(m.take(i as int) =~= m);
    let status = if total == 0 {
        "removed"
    } else if running == total {
        "running"
    } else if running == 0 {
        "stopped"
    } else {
        "partial"
    };
    (running, total, status)
}

} // verus!
