//! The first-contact identity resolution scan.  The update feed delivers a
//! batch of updates per long poll; the scan advances a monotonic cursor
//! over every update it sees (so none is processed twice across resumed
//! polls) and stops at the first message authored by the configured target
//! username, yielding that message's chat identifier.

use vstd::prelude::*;
use vstd::string::*;
use crate::ascii::{eq_ignore_ascii_case, lower_char, str_eq_ignore_ascii_case, strip_leading_at};

verus! {

/// One update of the remote feed, reduced to the fields the scan reads.
/// A field a malformed update lacks is `None`.
pub struct Update {
    /// The feed's own sequence number for this update.
    pub update_id: Option<i64>,
    /// The username of the embedded message's sender.
    pub sender: Option<String>,
    /// The chat identifier of the embedded message.
    pub chat: Option<i64>,
}

/// The result of scanning one batch of updates.
pub struct ScanResult {
    /// The cursor to resume polling from.
    pub next_offset: Option<i64>,
    /// The chat identifier of the first matching message, if one was seen.
    pub chat: Option<i64>,
}

/// The cursor value that permanently skips the update with this id.
pub open spec fn next_offset_of(id: i64) -> i64 {
    if id == i64::MAX {
        i64::MAX
    } else {
        (id + 1) as i64
    }
}

/// How one update advances the cursor: its id plus one when it carries an
/// id, the cursor unchanged when it does not.
pub open spec fn offset_after(off: Option<i64>, u: Update) -> Option<i64> {
    match u.update_id {
        Some(id) => Some(next_offset_of(id)),
        None => off,
    }
}

/// The configured target matches an observed sender name: equal up to
/// ASCII case, after one leading `@` on the target is stripped.
pub open spec fn target_matches(target: Seq<char>, sender: Seq<char>) -> bool {
    eq_ignore_ascii_case(strip_leading_at(target), sender)
}

/// The update's sender matches the already-normalized target.
pub open spec fn update_matches(u: Update, target_norm: Seq<char>) -> bool {
    match u.sender {
        Some(s) => eq_ignore_ascii_case(s@, target_norm),
        None => false,
    }
}

/// The update resolves the target: its sender matches and it carries a
/// chat identifier.
pub open spec fn resolves(u: Update, target_norm: Seq<char>) -> bool {
    update_matches(u, target_norm) && u.chat is Some
}

/// What scanning a batch yields: the cursor after every processed update,
/// and the chat identifier of the first resolving update, if any.  The
/// cursor is advanced for the matching update as well, so a resumed poll
/// never redelivers it.
pub open spec fn scan_spec(off: Option<i64>, ups: Seq<Update>, target_norm: Seq<char>) -> (
    Option<i64>,
    Option<i64>,
)
    decreases ups.len(),
{
    if ups.len() == 0 {
        (off, None)
    } else {
        let off1 = offset_after(off, ups[0]);
        if resolves(ups[0], target_norm) {
            (off1, ups[0].chat)
        } else {
            scan_spec(off1, ups.drop_first(), target_norm)
        }
    }
}

/// Scan one batch of updates for the target username.
pub fn scan_updates(off: Option<i64>, ups: &Vec<Update>, target_norm: &str) -> (r: ScanResult)
    ensures
        (r.next_offset, r.chat) == scan_spec(off, ups@, target_norm@),
{
    let mut cur: Option<i64> = off;
    let mut i: usize = 0;
    proof {
        assert(ups@.skip(0) =~= ups@);
    }
    while i < ups.len()
        invariant
            i <= ups@.len(),
            scan_spec(off, ups@, target_norm@) == scan_spec(
                cur,
                ups@.skip(i as int),
                target_norm@,
            ),
        decreases ups@.len() - i,
    {
        proof {
            assert(ups@.skip(i as int)[0] == ups@[i as int]);
            assert(ups@.skip(i as int).drop_first() =~= ups@.skip(i + 1 as int));
        }
        let u = &ups[i];
        let stepped: Option<i64> = match u.update_id {
            Some(id) => Some(if id == i64::MAX { id } else { id + 1 }),
            None => cur,
        };
        let matched: bool = match &u.sender {
            Some(s) => str_eq_ignore_ascii_case(s.as_str(), target_norm),
            None => false,
        };
        if matched && u.chat.is_some() {
            return ScanResult { next_offset: stepped, chat: u.chat };
        }
        cur = stepped;
        i = i + 1;
    }
    proof {
        assert(ups@.skip(ups@.len() as int) =~= Seq::<Update>::empty());
    }
    ScanResult { next_offset: cur, chat: None }
}

/// The ids in a batch never decrease (the feed delivers them in order).
pub open spec fn ids_nondecreasing(ups: Seq<Update>) -> bool {
    forall|i: int, j: int|
        0 <= i < j < ups.len() && ups[i].update_id is Some && ups[j].update_id is Some
            ==> ups[i].update_id->0 <= ups[j].update_id->0
}

/// The scan's resulting cursor is either the cursor it started from or
/// one past some delivered id.
proof fn lemma_scan_offset_source(off: Option<i64>, ups: Seq<Update>, target_norm: Seq<char>)
    ensures
        scan_spec(off, ups, target_norm).0 == off || exists|j: int|
            0 <= j < ups.len() && ups[j].update_id is Some && scan_spec(off, ups, target_norm).0
                == Some(next_offset_of(#[trigger] ups[j].update_id->0)),
    decreases ups.len(),
{
    if ups.len() > 0 {
        let off1 = offset_after(off, ups[0]);
        if !resolves(ups[0], target_norm) {
            lemma_scan_offset_source(off1, ups.drop_first(), target_norm);
            if scan_spec(off1, ups.drop_first(), target_norm).0 == off1 {
                if ups[0].update_id is Some {
                    assert(scan_spec(off, ups, target_norm).0 == Some(
                        next_offset_of(ups[0].update_id->0),
                    ));
                }
            } else {
                let j = choose|j: int|
                    0 <= j < ups.drop_first().len() && ups.drop_first()[j].update_id is Some
                        && scan_spec(off1, ups.drop_first(), target_norm).0 == Some(
                        next_offset_of(#[trigger] ups.drop_first()[j].update_id->0),
                    );
                assert(ups.drop_first()[j] == ups[j + 1]);
                assert(scan_spec(off, ups, target_norm).0 == Some(
                    next_offset_of(ups[j + 1].update_id->0),
                ));
            }
        } else {
            if ups[0].update_id is Some {
            }
        }
    }
}

/// Cursor monotonicity: after a batch is scanned to its end without a
/// match, the resulting cursor is past every id that was delivered, so a
/// resumed poll filtered by that cursor redelivers none of them.
pub proof fn lemma_cursor_passes_all(off: Option<i64>, ups: Seq<Update>, target_norm: Seq<char>)
    requires
        scan_spec(off, ups, target_norm).1 is None,
        ids_nondecreasing(ups),
    ensures
        forall|i: int|
            0 <= i < ups.len() && ups[i].update_id is Some ==> (scan_spec(
                off,
                ups,
                target_norm,
            ).0 is Some && #[trigger] ups[i].update_id->0 <= scan_spec(off, ups, target_norm).0->0
                && (ups[i].update_id->0 < i64::MAX ==> ups[i].update_id->0 < scan_spec(
                off,
                ups,
                target_norm,
            ).0->0)),
    decreases ups.len(),
{
    if ups.len() > 0 {
        let off1 = offset_after(off, ups[0]);
        assert(!resolves(ups[0], target_norm));
        let tail = ups.drop_first();
        assert(ids_nondecreasing(tail)) by {
            assert forall|i: int, j: int|
                0 <= i < j < tail.len() && tail[i].update_id is Some
                    && tail[j].update_id is Some implies tail[i].update_id->0
                <= tail[j].update_id->0 by {
                assert(tail[i] == ups[i + 1]);
                assert(tail[j] == ups[j + 1]);
            }
        }
        lemma_cursor_passes_all(off1, tail, target_norm);
        assert forall|i: int| 0 <= i < ups.len() && ups[i].update_id is Some implies (scan_spec(
            off,
            ups,
            target_norm,
        ).0 is Some && ups[i].update_id->0 <= scan_spec(off, ups, target_norm).0->0 && (
        ups[i].update_id->0 < i64::MAX ==> ups[i].update_id->0 < scan_spec(
            off,
            ups,
            target_norm,
        ).0->0)) by {
            if i > 0 {
                assert(tail[i - 1] == ups[i]);
            } else {
                let id = ups[0].update_id->0;
                lemma_scan_offset_source(off1, tail, target_norm);
                if scan_spec(off1, tail, target_norm).0 == off1 {
                } else {
                    let j = choose|j: int|
                        0 <= j < tail.len() && tail[j].update_id is Some && scan_spec(
                            off1,
                            tail,
                            target_norm,
                        ).0 == Some(next_offset_of(#[trigger] tail[j].update_id->0));
                    assert(tail[j] == ups[j + 1]);
                    assert(id <= tail[j].update_id->0);
                }
            }
        }
    }
}

/// Normalized-target matching in the scan agrees with matching against
/// the configured target: stripping one leading `@` first is exactly what
/// `target_matches` says.
pub proof fn lemma_update_matching(u: Update, target: Seq<char>)
    ensures
        u.sender is Some ==> update_matches(u, strip_leading_at(target)) == target_matches(
            target,
            u.sender->0@,
        ),
{
    if u.sender is Some {
        let a = strip_leading_at(target);
        let b = u.sender->0@;
        assert(eq_ignore_ascii_case(a, b) == eq_ignore_ascii_case(b, a));
    }
}

/// Matching tolerates a leading `@` on the configured target.
pub proof fn lemma_match_tolerates_at(target: Seq<char>, sender: Seq<char>)
    ensures
        target_matches(seq!['@'].add(target), sender) == eq_ignore_ascii_case(target, sender),
{
    crate::ascii::lemma_strip_tolerates_at(target);
}

/// Matching is insensitive to the ASCII case of the observed sender name.
pub proof fn lemma_match_case_insensitive(target: Seq<char>, sender: Seq<char>)
    ensures
        target_matches(target, sender.map_values(|c: char| lower_char(c))) == target_matches(
            target,
            sender,
        ),
{
    let t = strip_leading_at(target);
    assert(eq_ignore_ascii_case(t, sender.map_values(|c: char| lower_char(c)))
        == eq_ignore_ascii_case(sender.map_values(|c: char| lower_char(c)), t));
    assert(eq_ignore_ascii_case(sender, t) == eq_ignore_ascii_case(t, sender));
    crate::ascii::lemma_eq_ignore_case_insensitive(sender, t);
}

} // verus!
