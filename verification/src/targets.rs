//! Naming processes on the command line.
//!
//! A target on the command line is a process id, written in decimal, or
//! else the name of a program. For each process that is found the windows
//! it owns are hidden or shown in one request.

use crate::injector::{first_query, Injector, Plan};
use crate::window::{handles_of, records, WindowInfo, WindowRecord};
use std::collections::HashMap;
use vstd::prelude::*;
use vstd::std_specs::hash::group_hash_axioms;
use vstd::string::StringSliceAdditionalSpecFns;

verus! {

broadcast use group_hash_axioms;

/// Whether a byte is an ASCII digit.
pub open spec fn is_digit(byte: u8) -> bool {
    0x30 <= byte <= 0x39
}

/// Whether every byte is an ASCII digit.
pub open spec fn all_digits(digits: Seq<u8>) -> bool {
    forall|i: int| 0 <= i < digits.len() ==> is_digit(#[trigger] digits[i])
}

/// The number that decimal digits write.
pub open spec fn digits_value(digits: Seq<u8>) -> nat
    decreases digits.len(),
{
    if digits.len() == 0 {
        0
    } else {
        digits_value(digits.drop_last()) * 10 + (digits.last() - 0x30) as nat
    }
}

/// The bytes without a plus sign in front.
pub open spec fn unsigned_part(bytes: Seq<u8>) -> Seq<u8> {
    if bytes.len() > 0 && bytes[0] == 0x2B {
        bytes.skip(1)
    } else {
        bytes
    }
}

/// The process id that a target writes: one or more decimal digits, with at
/// most a plus sign in front and nothing else around them, of a value that
/// fits 32 bits. Any other target is a name.
pub open spec fn decimal_u32(bytes: Seq<u8>) -> Option<u32> {
    let digits = unsigned_part(bytes);
    if digits.len() > 0 && all_digits(digits) && digits_value(digits) <= u32::MAX {
        Some(digits_value(digits) as u32)
    } else {
        None
    }
}

/// More digits never write a smaller number.
pub proof fn lemma_digits_value_grows(digits: Seq<u8>, k: int)
    requires
        0 <= k <= digits.len(),
        all_digits(digits),
    ensures
        digits_value(digits.take(k)) <= digits_value(digits),
    decreases digits.len() - k,
{
    if k == digits.len() {
        assert(digits.take(k) == digits);
    } else {
        let longer = digits.take(k + 1);
        assert(longer.drop_last() == digits.take(k));
        assert(is_digit(digits[k]));
        lemma_digits_value_grows(digits, k + 1);
    }
}

/// Reads a target as a process id; `None` where it is a name.
pub fn parse_pid(target: &str) -> (pid: Option<u32>)
    ensures
        pid == decimal_u32(target.spec_bytes()),
{
    let bytes = target.as_bytes();
    let start: usize = if bytes.len() > 0 && bytes[0] == 0x2B {
        1
    } else {
        0
    };
    let ghost digits = unsigned_part(bytes@);
    if start == bytes.len() {
        return None;
    }
    let mut value: u32 = 0;
    let mut i: usize = start;
    while i < bytes.len()
        invariant
            start <= i <= bytes.len(),
            bytes@ == target.spec_bytes(),
            digits == unsigned_part(bytes@),
            digits == bytes@.skip(start as int),
            all_digits(digits.take(i - start)),
            value == digits_value(digits.take(i - start)),
        decreases bytes.len() - i,
    {
        let byte: u8 = bytes[i];
        let ghost seen = digits.take(i - start);
        let ghost longer = digits.take(i - start + 1);
        proof {
            assert(longer.drop_last() == seen);
            assert(longer.last() == byte);
        }
        if byte < 0x30 || byte > 0x39 {
            assert(!is_digit(digits[i - start]));
            return None;
        }
        let digit: u32 = (byte - 0x30) as u32;
        let next: u32 = match value.checked_mul(10) {
            Some(tens) => match tens.checked_add(digit) {
                Some(sum) => sum,
                None => {
                    proof {
                        if all_digits(digits) {
                            lemma_digits_value_grows(digits, i - start + 1);
                        }
                    }
                    return None;
                },
            },
            None => {
                proof {
                    if all_digits(digits) {
                        lemma_digits_value_grows(digits, i - start + 1);
                    }
                }
                return None;
            },
        };
        assert forall|k: int| 0 <= k < longer.len() implies is_digit(#[trigger] longer[k]) by {
            if k < seen.len() {
                assert(longer[k] == seen[k]);
            }
        }
        value = next;
        i += 1;
    }
    assert(digits.take(i - start) == digits);
    Some(value)
}

/// Whether `groups` holds the listed windows by process: an entry for each
/// process that owns a listed window and for no other, with the handles of
/// its windows in listing order.
pub open spec fn grouped(groups: Map<u32, Vec<u32>>, listed: Seq<WindowRecord>) -> bool {
    forall|pid: u32|
        #![trigger groups.contains_key(pid)]
        #![trigger handles_of(listed, pid)]
        {
            &&& groups.contains_key(pid) <==> handles_of(listed, pid).len() > 0
            &&& groups.contains_key(pid) ==> groups[pid]@ == handles_of(listed, pid)
        }
}

/// Groups the listed windows by the process that owns them.
pub fn windows_by_process(windows: &Vec<WindowInfo>) -> (groups: HashMap<u32, Vec<u32>>)
    ensures
        grouped(groups@, records(windows@)),
{
    let mut groups: HashMap<u32, Vec<u32>> = HashMap::new();
    let mut i: usize = 0;
    while i < windows.len()
        invariant
            i <= windows.len(),
            grouped(groups@, records(windows@).take(i as int)),
        decreases windows.len() - i,
    {
        let pid: u32 = windows[i].pid;
        let hwnd: u32 = windows[i].hwnd;
        let ghost before = groups@;
        let ghost seen = records(windows@).take(i as int);
        let ghost longer = records(windows@).take(i + 1);
        let mut handles: Vec<u32> = match groups.remove(&pid) {
            Some(found) => found,
            None => Vec::new(),
        };
        assert(handles@ == handles_of(seen, pid)) by {
            assert(before.contains_key(pid) <==> handles_of(seen, pid).len() > 0);
        }
        handles.push(hwnd);
        groups.insert(pid, handles);
        proof {
            assert(longer.drop_last() == seen);
            assert(longer.last() == windows@[i as int]@);
            assert forall|other: u32|
                #![trigger groups@.contains_key(other)]
                #![trigger handles_of(longer, other)]
                {
                    &&& groups@.contains_key(other) <==> handles_of(longer, other).len() > 0
                    &&& groups@.contains_key(other) ==> groups@[other]@ == handles_of(
                        longer,
                        other,
                    )
                } by {
                if other != pid {
                    assert(before.contains_key(other) <==> handles_of(seen, other).len() > 0);
                }
            }
        }
        i += 1;
    }
    assert(records(windows@).take(i as int) == records(windows@));
    groups
}

/// Starts the request for the windows of one process that the caller has
/// open, and takes them out of `groups`: all the handles that are grouped
/// under the process, in one request that leaves the taskbar alone. `None`
/// where nothing is grouped under the process; `groups` is then as it was.
pub fn request_for_process(
    groups: &mut HashMap<u32, Vec<u32>>,
    pid: u32,
    hide: bool,
    development: bool,
) -> (injector: Option<Injector>)
    ensures
        injector is Some <==> old(groups)@.contains_key(pid),
        final(groups)@ == old(groups)@.remove(pid),
        injector matches Some(started) ==> {
            &&& started.plan() == (Plan {
                hwnds: old(groups)@[pid]@,
                hide,
                hide_from_taskbar: None,
                development,
            })
            &&& started.phase() == first_query(started.plan())
        },
{
    match groups.remove(&pid) {
        Some(handles) => Some(Injector::set_window_props(handles.as_slice(), hide, None, development)),
        None => None,
    }
}

} // verus!
