//! Launching a program under capture with `renderdoccmd`.
//!
//! `renderdoccmd capture` starts a program with RenderDoc injected and says
//! on its output under which ident the program can be reached. The command
//! line is put together here, and the ident is read from the output here;
//! running the command is the caller's work.

use vstd::prelude::*;
use crate::copies::texts_of;

verus! {

/// What an optional setting adds to a command line: its flag and its value,
/// or nothing.
pub open spec fn flagged(flag: Seq<char>, value: Option<Seq<char>>) -> Seq<Seq<char>> {
    match value {
        Some(v) => seq![flag, v],
        None => Seq::empty(),
    }
}

/// The arguments of `renderdoccmd` that launch `executable` with `args`
/// under capture: `capture`, the working directory behind `-d`, the
/// capture file template behind `-c`, the program, and its own arguments.
pub open spec fn capture_command(
    working_dir: Option<Seq<char>>,
    capture_file_template: Option<Seq<char>>,
    executable: Seq<char>,
    args: Seq<Seq<char>>,
) -> Seq<Seq<char>> {
    seq!["capture"@] + flagged("-d"@, working_dir) + flagged("-c"@, capture_file_template)
        + seq![executable] + args
}

/// Puts together the arguments of `renderdoccmd` that launch a program
/// under capture.
pub fn capture_arguments(
    working_dir: &Option<String>,
    capture_file_template: &Option<String>,
    executable: &str,
    args: &Vec<String>,
) -> (out: Vec<String>)
    ensures
        texts_of(out) == capture_command(
            match *working_dir {
                Some(d) => Some(d@),
                None => None,
            },
            match *capture_file_template {
                Some(t) => Some(t@),
                None => None,
            },
            executable@,
            texts_of(*args),
        ),
{
    let mut out: Vec<String> = Vec::new();
    out.push("capture".to_owned());
    match working_dir {
        Some(dir) => {
            out.push("-d".to_owned());
            out.push(dir.clone());
        },
        None => {},
    }
    match capture_file_template {
        Some(template) => {
            out.push("-c".to_owned());
            out.push(template.clone());
        },
        None => {},
    }
    out.push(executable.to_owned());
    let ghost head = texts_of(out);
    assert(head =~= seq!["capture"@] + flagged(
        "-d"@,
        match *working_dir {
            Some(d) => Some(d@),
            None => None,
        },
    ) + flagged(
        "-c"@,
        match *capture_file_template {
            Some(t) => Some(t@),
            None => None,
        },
    ) + seq![executable@]);
    let mut i: usize = 0;
    while i < args.len()
        invariant
            i <= args.len(),
            texts_of(out) == head + texts_of(*args).take(i as int),
        decreases args.len() - i,
    {
        let ghost before = texts_of(out);
        out.push(args[i].clone());
        assert(texts_of(out) =~= before.push(args[i as int]@));
        assert(texts_of(*args).take(i + 1) =~= texts_of(*args).take(i as int).push(
            args[i as int]@,
        ));
        i = i + 1;
    }
    assert(texts_of(*args).take(args.len() as int) =~= texts_of(*args));
    out
}

/// The bytes of `Launched as ID `, the words before the ident.
pub open spec fn launch_marker() -> Seq<u8> {
    seq![
        0x4cu8, 0x61u8, 0x75u8, 0x6eu8, 0x63u8, 0x68u8, 0x65u8, 0x64u8, 0x20u8, 0x61u8, 0x73u8,
        0x20u8, 0x49u8, 0x44u8, 0x20u8,
    ]
}

/// Whether `word` stands in `text` at `at`.
pub open spec fn occurs_at(text: Seq<u8>, word: Seq<u8>, at: int) -> bool {
    0 <= at && at + word.len() <= text.len() && text.subrange(at, at + word.len()) == word
}

/// Where `word` first stands in `text`, at `from` or behind it.
pub open spec fn first_occurrence(text: Seq<u8>, word: Seq<u8>, from: int) -> Option<int>
    decreases text.len() - from + 1,
{
    if from < 0 || from + word.len() > text.len() {
        None
    } else if occurs_at(text, word, from) {
        Some(from)
    } else {
        first_occurrence(text, word, from + 1)
    }
}

/// Whether `b` is one of the characters `0` to `9`.
pub open spec fn is_digit_byte(b: u8) -> bool {
    0x30 <= b <= 0x39
}

/// The number of digits that `text` begins with.
pub open spec fn leading_digits(text: Seq<u8>) -> nat
    decreases text.len(),
{
    if text.len() > 0 && is_digit_byte(text[0]) {
        1 + leading_digits(text.drop_first())
    } else {
        0
    }
}

/// The number that a run of digits spells.
pub open spec fn number_of(digits: Seq<u8>) -> nat
    decreases digits.len(),
{
    if digits.len() == 0 {
        0
    } else {
        (number_of(digits.drop_last()) * 10 + (digits.last() - 0x30)) as nat
    }
}

/// The ident that an output names: the number behind the first
/// `Launched as ID `, if there are digits and they spell a `u32`.
pub open spec fn target_ident_in(output: Seq<u8>) -> Option<u32> {
    match first_occurrence(output, launch_marker(), 0) {
        None => None,
        Some(at) => {
            let rest = output.skip(at + launch_marker().len());
            let count = leading_digits(rest);
            let value = number_of(rest.take(count as int));
            if count == 0 || value > u32::MAX {
                None
            } else {
                Some(value as u32)
            }
        },
    }
}

proof fn lemma_leading_digits(text: Seq<u8>, k: int)
    requires
        0 <= k <= text.len(),
        forall|i: int| 0 <= i < k ==> is_digit_byte(#[trigger] text[i]),
    ensures
        leading_digits(text) >= k,
        (k == text.len() || !is_digit_byte(text[k])) ==> leading_digits(text) == k,
    decreases k,
{
    if k > 0 {
        let rest = text.drop_first();
        assert forall|i: int| 0 <= i < k - 1 implies is_digit_byte(#[trigger] rest[i]) by {
            assert(rest[i] == text[i + 1]);
        }
        if k < text.len() {
            assert(rest[k - 1] == text[k]);
        }
        lemma_leading_digits(rest, k - 1);
    }
}

proof fn lemma_leading_are_digits(text: Seq<u8>)
    ensures
        leading_digits(text) <= text.len(),
        forall|i: int| 0 <= i < leading_digits(text) ==> is_digit_byte(#[trigger] text[i]),
    decreases text.len(),
{
    if text.len() > 0 && is_digit_byte(text[0]) {
        let rest = text.drop_first();
        lemma_leading_are_digits(rest);
        assert forall|i: int| 0 <= i < leading_digits(text) implies is_digit_byte(
            #[trigger] text[i],
        ) by {
            if i > 0 {
                assert(text[i] == rest[i - 1]);
            }
        }
    }
}

proof fn lemma_number_grows(text: Seq<u8>, k: int, n: int)
    requires
        0 <= k <= n <= text.len(),
        forall|i: int| 0 <= i < n ==> is_digit_byte(#[trigger] text[i]),
    ensures
        number_of(text.take(k)) <= number_of(text.take(n)),
    decreases n - k,
{
    if k < n {
        lemma_number_grows(text, k, n - 1);
        assert(text.take(n).drop_last() =~= text.take(n - 1));
        assert(text.take(n).last() == text[n - 1]);
    }
}

fn marker_bytes() -> (out: Vec<u8>)
    ensures
        out@ == launch_marker(),
{
    let mut out: Vec<u8> = Vec::new();
    out.push(0x4c);
    out.push(0x61);
    out.push(0x75);
    out.push(0x6e);
    out.push(0x63);
    out.push(0x68);
    out.push(0x65);
    out.push(0x64);
    out.push(0x20);
    out.push(0x61);
    out.push(0x73);
    out.push(0x20);
    out.push(0x49);
    out.push(0x44);
    out.push(0x20);
    assert(out@ =~= launch_marker());
    out
}

fn stands_at(text: &[u8], word: &Vec<u8>, at: usize) -> (out: bool)
    requires
        at + word.len() <= text.len(),
    ensures
        out == occurs_at(text@, word@, at as int),
{
    let mut i: usize = 0;
    while i < word.len()
        invariant
            i <= word.len(),
            at + word.len() <= text.len(),
            forall|k: int| 0 <= k < i ==> text@[at + k] == word@[k],
        decreases word.len() - i,
    {
        if text[at + i] != word[i] {
            proof {
                let part = text@.subrange(at as int, at + word.len());
                assert(part[i as int] == text@[at + i]);
            }
            return false;
        }
        i = i + 1;
    }
    assert(text@.subrange(at as int, at + word.len()) =~= word@);
    true
}

/// Finds where `word` first stands in `text`.
pub fn find(text: &[u8], word: &Vec<u8>) -> (out: Option<usize>)
    ensures
        out is Some ==> first_occurrence(text@, word@, 0) == Some(out->0 as int) && occurs_at(
            text@,
            word@,
            out->0 as int,
        ),
        out is None ==> first_occurrence(text@, word@, 0) is None,
{
    if word.len() > text.len() {
        return None;
    }
    let last: usize = text.len() - word.len();
    let mut at: usize = 0;
    loop
        invariant
            at <= last,
            last + word.len() == text.len(),
            first_occurrence(text@, word@, 0) == first_occurrence(text@, word@, at as int),
        decreases last - at,
    {
        if stands_at(text, word, at) {
            return Some(at);
        }
        if at == last {
            assert(first_occurrence(text@, word@, at + 1) is None);
            return None;
        }
        at = at + 1;
    }
}

/// Reads the ident of a launched target from what `renderdoccmd capture`
/// wrote.
pub fn parse_target_ident(output: &[u8]) -> (out: Option<u32>)
    ensures
        out == target_ident_in(output@),
{
    let marker = marker_bytes();
    let at = match find(output, &marker) {
        Some(at) => at,
        None => {
            return None;
        },
    };
    let total: usize = output.len();
    let start: usize = at + marker.len();
    let ghost rest = output@.skip(start as int);
    let mut value: u64 = 0;
    let mut i: usize = start;
    while i < total && output[i] >= 0x30 && output[i] <= 0x39
        invariant
            start <= i <= total,
            total == output.len(),
            first_occurrence(output@, launch_marker(), 0) == Some(at as int),
            start == at + launch_marker().len(),
            rest == output@.skip(start as int),
            forall|k: int| 0 <= k < i - start ==> is_digit_byte(#[trigger] rest[k]),
            value == number_of(rest.take(i - start)),
            value <= u32::MAX,
        decreases total - i,
    {
        let digit: u64 = (output[i] - 0x30) as u64;
        let ghost k = i - start;
        proof {
            assert(rest[k] == output@[i as int]);
            assert(rest.take(k + 1).drop_last() =~= rest.take(k));
            assert(rest.take(k + 1).last() == rest[k]);
        }
        let next: u64 = value * 10 + digit;
        assert(next == number_of(rest.take(k + 1)));
        if next > 0xffff_ffff {
            proof {
                assert forall|j: int| 0 <= j < k + 1 implies is_digit_byte(#[trigger] rest[j]) by {}
                lemma_leading_digits(rest, k + 1);
                lemma_leading_are_digits(rest);
                lemma_number_grows(rest, k + 1, leading_digits(rest) as int);
            }
            return None;
        }
        value = next;
        i = i + 1;
    }
    proof {
        let k = i - start;
        if i < total {
            assert(rest[k] == output@[i as int]);
        }
        lemma_leading_digits(rest, k);
    }
    if i == start {
        None
    } else {
        Some(value as u32)
    }
}

/// Reads the ident of a launched target from the two outputs of
/// `renderdoccmd capture`: from what it printed, or else from what it
/// printed as errors.
pub fn launched_ident(stdout: &[u8], stderr: &[u8]) -> (out: Option<u32>)
    ensures
        out == match target_ident_in(stdout@) {
            Some(ident) => Some(ident),
            None => target_ident_in(stderr@),
        },
{
    match parse_target_ident(stdout) {
        Some(ident) => Some(ident),
        None => parse_target_ident(stderr),
    }
}

/// The arguments of `renderdoccmd` that write the thumbnail of `capture`
/// to `output`.
pub fn thumbnail_arguments(capture: &str, output: &str) -> (out: Vec<String>)
    ensures
        texts_of(out) == seq!["thumb"@, "--out"@, output@, capture@],
{
    let mut out: Vec<String> = Vec::new();
    out.push("thumb".to_owned());
    out.push("--out".to_owned());
    out.push(output.to_owned());
    out.push(capture.to_owned());
    assert(texts_of(out) =~= seq!["thumb"@, "--out"@, output@, capture@]);
    out
}

} // verus!
