//! Copies of request fields, with what is known of them.
//!
//! A request is handed to a call by reference and written to disk by value,
//! so its fields are copied. These helpers say of each copy that it holds
//! what was copied.

use vstd::prelude::*;

verus! {

/// An optional text as a plain value.
pub open spec fn text_of(text: Option<String>) -> Option<Seq<char>> {
    match text {
        Some(s) => Some(s@),
        None => None,
    }
}

/// A list of texts as a plain value.
pub open spec fn texts_of(texts: Vec<String>) -> Seq<Seq<char>> {
    Seq::new(texts@.len(), |i: int| texts@[i]@)
}

/// An optional list of texts as a plain value.
pub open spec fn opt_texts_of(texts: Option<Vec<String>>) -> Option<Seq<Seq<char>>> {
    match texts {
        Some(v) => Some(texts_of(v)),
        None => None,
    }
}

/// Copies an optional text.
pub fn clone_text(text: &Option<String>) -> (out: Option<String>)
    ensures
        out == *text,
{
    match text {
        Some(s) => Some(s.clone()),
        None => None,
    }
}

/// Copies a list of values that are copied bit by bit.
pub fn clone_values<T: Copy>(values: &Vec<T>) -> (out: Vec<T>)
    ensures
        out@ == values@,
{
    let mut out: Vec<T> = Vec::new();
    let mut i: usize = 0;
    while i < values.len()
        invariant
            i <= values.len(),
            out@ == values@.take(i as int),
        decreases values.len() - i,
    {
        out.push(values[i]);
        assert(out@ =~= values@.take(i + 1));
        i = i + 1;
    }
    assert(values@.take(values.len() as int) =~= values@);
    out
}

/// Copies a list of texts.
pub fn clone_texts(texts: &Vec<String>) -> (out: Vec<String>)
    ensures
        out@ == texts@,
        texts_of(out) == texts_of(*texts),
{
    let mut out: Vec<String> = Vec::new();
    let mut i: usize = 0;
    while i < texts.len()
        invariant
            i <= texts.len(),
            out@ == texts@.take(i as int),
        decreases texts.len() - i,
    {
        out.push(texts[i].clone());
        assert(out@ =~= texts@.take(i + 1));
        i = i + 1;
    }
    assert(texts@.take(texts.len() as int) =~= texts@);
    out
}

/// Copies an optional list of texts.
pub fn clone_opt_texts(texts: &Option<Vec<String>>) -> (out: Option<Vec<String>>)
    ensures
        opt_texts_of(out) == opt_texts_of(*texts),
        out is Some <==> *texts is Some,
        out is Some ==> out->0@ == texts->0@,
{
    match texts {
        Some(v) => Some(clone_texts(v)),
        None => None,
    }
}

} // verus!
