//! Helpers for callers.

use vstd::prelude::*;

verus! {

/// The characters that a device identifier is drawn from.
pub const ALPHABET: &'static str = "abcdefghijklmnopqrstuvwxyzABCDEFGHIJKLMNOPQRSTUVWXYZ0123456789";

/// The number of characters in `ALPHABET`.
pub const ALPHABET_LENGTH: usize = 62;

/// What every device identifier starts with.
pub const DEVICE_ID_PREFIX: &'static str = "d-";

/// The number of characters drawn for a device identifier.
pub const DEVICE_ID_DRAWS: usize = 16;

/// Draws a number below `bound` with `rand`'s thread-local generator, by
/// `Rng::random_range(0..bound)`, which returns a value of the range and
/// panics on an empty one. Which value comes is left to chance.
#[verifier::external_body]
fn random_below(bound: usize) -> (drawn: usize)
    requires
        bound > 0,
    ensures
        drawn < bound,
{
    rand::Rng::random_range(&mut rand::rng(), 0..bound)
}

/// The character that a draw stands for: the one at that place of the
/// alphabet, counted round.
pub open spec fn letter(draw: usize) -> char {
    ALPHABET@[(draw % ALPHABET_LENGTH) as int]
}

/// The device identifier of a sequence of draws: `d-` and one character per draw.
pub open spec fn device_id_of(draws: Seq<usize>) -> Seq<char> {
    DEVICE_ID_PREFIX@ + draws.map_values(|draw: usize| letter(draw))
}

/// Writes the device identifier of a list of draws.
pub fn device_id_from(draws: &Vec<usize>) -> (id: String)
    ensures
        id@ == device_id_of(draws@),
{
    proof {
        reveal_strlit("abcdefghijklmnopqrstuvwxyzABCDEFGHIJKLMNOPQRSTUVWXYZ0123456789");
    }
    let mut id = DEVICE_ID_PREFIX.to_owned();
    let mut i: usize = 0;
    while i < draws.len()
        invariant
            i <= draws.len(),
            ALPHABET@.len() == ALPHABET_LENGTH,
            id@ == device_id_of(draws@.take(i as int)),
        decreases draws.len() - i,
    {
        let place = draws[i] % ALPHABET_LENGTH;
        let one = ALPHABET.substring_char(place, place + 1);
        id.append(one);
        assert(one@ =~= seq![letter(draws@[i as int])]);
        assert(device_id_of(draws@.take(i + 1)) =~= device_id_of(draws@.take(i as int)) + one@);
        i += 1;
    }
    assert(draws@.take(draws.len() as int) =~= draws@);
    id
}

/// Makes a random identifier for this device: `d-` followed by 16 characters
/// of `ALPHABET`. It should be stored and used again, since every new
/// identifier is a new device to the service.
pub fn generate_device_id() -> (id: String)
    ensures
        exists|draws: Seq<usize>|
            draws.len() == DEVICE_ID_DRAWS && id@ == #[trigger] device_id_of(draws),
        id@.len() == DEVICE_ID_PREFIX@.len() + DEVICE_ID_DRAWS,
{
    proof {
        reveal_strlit("d-");
    }
    let mut draws: Vec<usize> = Vec::new();
    let mut i: usize = 0;
    while i < DEVICE_ID_DRAWS
        invariant
            i <= DEVICE_ID_DRAWS,
            draws@.len() == i,
        decreases DEVICE_ID_DRAWS - i,
    {
        draws.push(random_below(ALPHABET_LENGTH));
        i += 1;
    }
    device_id_from(&draws)
}

} // verus!
