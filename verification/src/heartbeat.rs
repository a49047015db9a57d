//! Whether the client process is still there.
use vstd::prelude::*;

verus! {

/// How long to wait before the client process is looked for again.
pub const HEARTBEAT_SECONDS: u64 = 60;

/// What to do after a look at the list of processes.
#[derive(Clone, Copy, Debug, PartialEq, Eq, Structural)]
pub enum HeartbeatAction {
    /// The client is there: look again after this many seconds.
    LookAgainAfter(u64),
    /// The client is gone: end the server.
    Exit,
}

/// The decimal digits of `number`, in ASCII.
pub open spec fn decimal(number: nat) -> Seq<u8>
    decreases number,
{
    let digit = (48 + number % 10) as u8;
    if number < 10 {
        seq![digit]
    } else {
        decimal(number / 10).push(digit)
    }
}

/// `part` occurs in `whole`, at `at`.
pub open spec fn occurs_at(whole: Seq<u8>, part: Seq<u8>, at: int) -> bool {
    &&& 0 <= at <= whole.len() - part.len()
    &&& whole.subrange(at, at + part.len()) == part
}

/// `part` occurs in `whole`.
pub open spec fn occurs(whole: Seq<u8>, part: Seq<u8>) -> bool {
    exists|at: int| occurs_at(whole, part, at)
}

/// The list of processes names `client_pid`, with a space behind it.
pub open spec fn lists_process(listing: Seq<u8>, client_pid: nat) -> bool {
    occurs(listing, decimal(client_pid).push(32u8))
}

fn decimal_digits(number: usize) -> (digits: Vec<u8>)
    ensures
        digits@ == decimal(number as nat),
    decreases number,
{
    let digit: u8 = 48 + (number % 10) as u8;
    if number < 10 {
        let digits: Vec<u8> = vec![digit];
        assert(digits@ =~= decimal(number as nat));
        digits
    } else {
        let mut digits = decimal_digits(number / 10);
        digits.push(digit);
        digits
    }
}

fn starts_at(whole: &[u8], part: &Vec<u8>, at: usize) -> (found: bool)
    requires
        at <= whole.len() - part.len(),
    ensures
        found == occurs_at(whole@, part@, at as int),
{
    let mut i: usize = 0;
    while i < part.len()
        invariant
            at <= whole.len() - part.len(),
            i <= part.len(),
            forall|j: int| 0 <= j < i ==> whole@[at + j] == part@[j],
        decreases part.len() - i,
    {
        if whole[at + i] != part[i] {
            assert(whole@.subrange(at as int, at + part.len())[i as int] != part@[i as int]);
            return false;
        }
        i = i + 1;
    }
    assert(whole@.subrange(at as int, at + part.len()) =~= part@);
    true
}

fn contains(whole: &[u8], part: &Vec<u8>) -> (found: bool)
    ensures
        found == occurs(whole@, part@),
{
    if part.len() > whole.len() {
        return false;
    }
    let last = whole.len() - part.len();
    let mut at: usize = 0;
    while at < last
        invariant
            last == whole.len() - part.len(),
            at <= last,
            forall|k: int| 0 <= k < at ==> !occurs_at(whole@, part@, k),
        decreases last - at,
    {
        if starts_at(whole, part, at) {
            return true;
        }
        at = at + 1;
    }
    starts_at(whole, part, last)
}

/// Tells from the list of processes, as `ps -p` writes it, whether the client is still running.
/// The server goes on exactly as long as the list names the client's process.
pub fn client_heartbeat(listing: &[u8], client_pid: usize) -> (action: HeartbeatAction)
    ensures
        action == if lists_process(listing@, client_pid as nat) {
            HeartbeatAction::LookAgainAfter(60)
        } else {
            HeartbeatAction::Exit
        },
        action == HeartbeatAction::LookAgainAfter(60) <==> exists|
            before: Seq<u8>,
            behind: Seq<u8>,
        |
            listing@ == #[trigger] (before + decimal(client_pid as nat) + seq![32u8] + behind),
{
    proof {
        law_listing_names_client(listing@, client_pid as nat);
    }
    let mut entry = decimal_digits(client_pid);
    entry.push(32u8);
    if contains(listing, &entry) {
        HeartbeatAction::LookAgainAfter(HEARTBEAT_SECONDS)
    } else {
        HeartbeatAction::Exit
    }
}

/// The digits of a number are those of its tens, if it has any, with the digit of its ones behind.
pub proof fn law_decimal_digits(tens: nat, ones: nat)
    requires
        ones < 10,
    ensures
        decimal(ones) == seq![(48 + ones) as u8],
        tens > 0 ==> decimal(10 * tens + ones) == decimal(tens).push((48 + ones) as u8),
{
    if tens > 0 {
        assert((10 * tens + ones) / 10 == tens);
        assert((10 * tens + ones) % 10 == ones);
    }
}

/// Whatever stands before and behind, the process is listed where its number stands with a space
/// behind it.
pub proof fn law_listed_client_is_found(before: Seq<u8>, client_pid: nat, behind: Seq<u8>)
    ensures
        lists_process(before + decimal(client_pid) + seq![32u8] + behind, client_pid),
{
    let entry = decimal(client_pid).push(32u8);
    let listing = before + decimal(client_pid) + seq![32u8] + behind;
    let at = before.len() as int;
    assert(listing.subrange(at, at + entry.len()) =~= entry);
    assert(occurs_at(listing, entry, at));
}

/// A process is listed exactly where the listing holds its number with a space behind it.
pub proof fn law_listing_names_client(listing: Seq<u8>, client_pid: nat)
    ensures
        lists_process(listing, client_pid) <==> exists|before: Seq<u8>, behind: Seq<u8>|
            listing == #[trigger] (before + decimal(client_pid) + seq![32u8] + behind),
{
    let entry = decimal(client_pid).push(32u8);
    if lists_process(listing, client_pid) {
        let at = choose|at: int| occurs_at(listing, entry, at);
        let before = listing.take(at);
        let behind = listing.skip(at + entry.len());
        let found = listing.subrange(at, at + entry.len());
        assert(before + found + behind =~= listing);
        assert(before + decimal(client_pid) + seq![32u8] + behind =~= before + entry + behind);
        assert(listing == before + decimal(client_pid) + seq![32u8] + behind);
    }
    if exists|before: Seq<u8>, behind: Seq<u8>|
        listing == #[trigger] (before + decimal(client_pid) + seq![32u8] + behind) {
        let (before, behind) = choose|before: Seq<u8>, behind: Seq<u8>|
            listing == #[trigger] (before + decimal(client_pid) + seq![32u8] + behind);
        law_listed_client_is_found(before, client_pid, behind);
    }
}

} // verus!
