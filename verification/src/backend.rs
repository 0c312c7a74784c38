//! Pluggable digital backends (MLX, Core ML): a registered handler may
//! replace the input by its own output, and the input passes through
//! whenever the handler is missing, fails, or changes the vector's length.

use vstd::prelude::*;

verus! {

/// What a backend call returns for `input`, given what its handler produced:
/// `None` when no handler is registered, `Some(Err(_))` when it failed.
pub open spec fn backend_result<T>(input: Seq<T>, handler_output: Option<Result<Seq<T>, String>>) -> Seq<T> {
    match handler_output {
        Some(Ok(out)) => if out.len() == input.len() {
            out
        } else {
            input
        },
        _ => input,
    }
}

/// The output of a backend call: the handler's output when it succeeded with
/// a vector of the input's length, otherwise a copy of the input.
pub fn backend_output_or_passthrough<T: Copy>(
    input: &[T],
    handler_output: Option<Result<Vec<T>, String>>,
) -> (out: Vec<T>)
    ensures
        out@ == backend_result(
            input@,
            match handler_output {
                Some(Ok(v)) => Some(Ok(v@)),
                Some(Err(e)) => Some(Err(e)),
                None => None,
            },
        ),
        out.len() == input.len(),
        match handler_output {
            Some(Ok(v)) => v.len() == input.len() ==> out@ == v@,
            _ => true,
        },
        match handler_output {
            Some(Ok(v)) => v.len() != input.len(),
            _ => true,
        } ==> out@ == input@,
{
    if let Some(Ok(out)) = handler_output {
        if out.len() == input.len() {
            return out;
        }
    }
    let mut copy: Vec<T> = Vec::new();
    let mut i: usize = 0;
    while i < input.len()
        invariant
            i <= input.len(),
            copy@ == input@.subrange(0, i as int),
        decreases input.len() - i,
    {
        copy.push(input[i]);
        i = i + 1;
        assert(copy@ =~= input@.subrange(0, i as int));
    }
    assert(copy@ =~= input@);
    copy
}

/// A backend call never changes the vector's length, and without a
/// successful handler it is the identity.
pub proof fn lemma_backend_preserves_length<T>(input: Seq<T>, handler_output: Option<Result<Seq<T>, String>>)
    ensures
        backend_result(input, handler_output).len() == input.len(),
        !(handler_output matches Some(Ok(_))) ==> backend_result(input, handler_output) == input,
{
}

/// What a backend call returns: the handler's output exactly when the handler
/// succeeded with a vector of the input's length; the input itself when the
/// handler is missing, fails, or returns a vector of any other length.
pub proof fn lemma_backend_uses_only_same_length_output<T>(input: Seq<T>, out: Seq<T>, err: String)
    ensures
        out.len() == input.len() ==> backend_result(input, Some(Ok(out))) == out,
        out.len() != input.len() ==> backend_result(input, Some(Ok(out))) == input,
        backend_result(input, Some(Err(err))) == input,
        backend_result(input, None) == input,
{
}

} // verus!
