use vstd::prelude::*;

verus! {

/// The emulator reports sizes and counts as signed integers. Gives the
/// size as a length, where it is one.
pub fn size_from(raw: i32) -> (size: Option<usize>)
    ensures
        size is Some == (raw >= 0),
        size matches Some(n) ==> n == raw,
{
    if raw >= 0 {
        Some(raw as usize)
    } else {
        None
    }
}

/// The buffer that the emulator fills with a list of `count` codes (the
/// modes or the difficulties of a game, its legal or its minimal actions):
/// `count` zeros. There is none for a negative count.
pub fn list_buffer(count: i32) -> (buffer: Option<Vec<i32>>)
    ensures
        buffer is Some == (count >= 0),
        buffer matches Some(b) ==> b@ == Seq::new(count as nat, |i: int| 0i32),
{
    match size_from(count) {
        Some(n) => {
            let b = vec![0i32; n];
            assert(b@ == Seq::new(count as nat, |i: int| 0i32));
            Some(b)
        },
        None => None,
    }
}

/// Whether `code` is one of `available`: a mode or a difficulty can be set
/// only if the game lists it.
pub fn is_available(available: &[i32], code: i32) -> (listed: bool)
    ensures
        listed == available@.contains(code),
{
    let mut i: usize = 0;
    while i < available.len()
        invariant
            i <= available@.len(),
            forall|j: int| 0 <= j < i ==> available@[j] != code,
        decreases available@.len() - i,
    {
        if available[i] == code {
            return true;
        }
        i += 1;
    }
    false
}

} // verus!
