use vstd::prelude::*;
use vstd::string::StringExecFns;
use crate::reply::{Body, Outcome, Reply};
use crate::reply::{empty_error, failed_error, not_found_error, played_message, unreadable_error};
use crate::reply::{empty_text, failed_text, not_found_text, played_text, unreadable_text};

verus! {

/// Whether some entry of the listing is the character sequence `name`.
pub open spec fn listing_has(listing: Seq<String>, name: Seq<char>) -> bool {
    exists|i: int| 0 <= i < listing.len() && listing[i]@ == name
}

/// The path handed to the playback dispatcher: the directory, a separator,
/// and the file name.
pub open spec fn path_text(dir: Seq<char>, name: Seq<char>) -> Seq<char> {
    dir + "/"@ + name
}

/// Tests whether the directory listing holds a file named `name`.
pub fn contains_name(listing: &Vec<String>, name: &String) -> (r: bool)
    ensures
        r == listing_has(listing@, name@),
{
    let mut i: usize = 0;
    while i < listing.len()
        invariant
            i <= listing@.len(),
            forall|j: int| 0 <= j < i ==> listing@[j]@ != name@,
        decreases listing@.len() - i,
    {
        if listing[i] == *name {
            return true;
        }
        i = i + 1;
    }
    false
}

/// Joins the sound directory and a file name into the path the dispatcher
/// receives.
pub fn sound_path(dir: &str, name: &str) -> (r: String)
    ensures
        r@ == path_text(dir@, name@),
{
    let mut p = dir.to_owned();
    p.append("/");
    p.append(name);
    p
}

/// What the gateway decides for a play request: answer the caller at once,
/// or hand a path to the playback dispatcher and await its outcome.
pub enum PlayDecision {
    /// Reply immediately; the dispatcher is never invoked.
    Refuse(Reply),
    /// Invoke the dispatcher once on `path`; `name` is kept for the reply.
    Dispatch { name: String, path: String },
}

/// Decides a play request for `name` against the directory listing.
///
/// A name absent from the listing is refused with status 404 and the
/// dispatcher is never invoked; a present name is dispatched, exactly once,
/// on the joined path.
pub fn play_sound_request(dir: &str, listing: &Vec<String>, name: String) -> (d: PlayDecision)
    ensures
        !listing_has(listing@, name@) ==> (d matches PlayDecision::Refuse(r)
            && r.status == 404
            && (r.body matches Body::Status(Outcome::Failure { error })
                && error@ == not_found_text(name@))),
        listing_has(listing@, name@) ==> (d matches PlayDecision::Dispatch { name: n, path }
            && n@ == name@
            && path@ == path_text(dir@, name@)),
{
    if !contains_name(listing, &name) {
        PlayDecision::Refuse(Reply {
            status: 404,
            body: Body::Status(Outcome::Failure { error: not_found_error(name.as_str()) }),
        })
    } else {
        let path = sound_path(dir, name.as_str());
        PlayDecision::Dispatch { name, path }
    }
}

/// Builds the reply once the dispatcher has finished with `name`:
/// status 200 with a success message when it played the sound,
/// status 500 with an error string when it failed.
pub fn play_sound_response(name: &str, dispatched: bool) -> (r: Reply)
    ensures
        dispatched ==> (r.status == 200
            && (r.body matches Body::Status(Outcome::Success { message })
                && message@ == played_text(name@))),
        !dispatched ==> (r.status == 500
            && (r.body matches Body::Status(Outcome::Failure { error })
                && error@ == failed_text(name@))),
{
    if dispatched {
        Reply {
            status: 200,
            body: Body::Status(Outcome::Success { message: played_message(name) }),
        }
    } else {
        Reply {
            status: 500,
            body: Body::Status(Outcome::Failure { error: failed_error(name) }),
        }
    }
}

/// Builds the reply for the list endpoint from one fresh read of the
/// directory: status 200 with exactly the listing, in enumeration order,
/// when the read succeeded, and status 500 when it failed.
pub fn list_sounds(listing: Result<Vec<String>, ()>) -> (r: Reply)
    ensures
        listing matches Ok(sounds) ==> (r.status == 200
            && (r.body matches Body::Listing(l) && l == sounds)),
        listing matches Err(_) ==> (r.status == 500
            && (r.body matches Body::Status(Outcome::Failure { error })
                && error@ == unreadable_text())),
{
    match listing {
        Ok(sounds) => Reply { status: 200, body: Body::Listing(sounds) },
        Err(_) => Reply {
            status: 500,
            body: Body::Status(Outcome::Failure { error: unreadable_error() }),
        },
    }
}

/// Each list reply mirrors the one directory read it was built from, with no
/// cache in between, so a file added or removed between two reads shows in
/// the next reply: if both replies carry their reads as listing bodies and
/// the reads differ, the replies differ.
pub proof fn lemma_list_reply_tracks_directory(r1: Reply, r2: Reply, s1: Vec<String>, s2: Vec<String>)
    requires
        (r1.body matches Body::Listing(l1) && l1 == s1),
        (r2.body matches Body::Listing(l2) && l2 == s2),
    ensures
        s1@ != s2@ ==> r1.body != r2.body,
{
}

/// Decides a play request that named no sound, from one fresh read of the
/// directory: an unreadable directory is refused with status 500, an empty
/// one with status 404 and no dispatch, and otherwise the first listed name,
/// a member of the directory's current file set, is dispatched.
pub fn play_default_sound(dir: &str, listing: Result<Vec<String>, ()>) -> (d: PlayDecision)
    ensures
        listing matches Err(_) ==> (d matches PlayDecision::Refuse(r)
            && r.status == 500
            && (r.body matches Body::Status(Outcome::Failure { error })
                && error@ == unreadable_text())),
        listing matches Ok(sounds) ==> sounds@.len() == 0 ==> (d matches PlayDecision::Refuse(r)
            && r.status == 404
            && (r.body matches Body::Status(Outcome::Failure { error })
                && error@ == empty_text())),
        listing matches Ok(sounds) ==> sounds@.len() > 0 ==> (d matches PlayDecision::Dispatch { name, path }
            && name@ == sounds@[0]@
            && listing_has(sounds@, name@)
            && path@ == path_text(dir@, name@)),
{
    match listing {
        Err(_) => PlayDecision::Refuse(Reply {
            status: 500,
            body: Body::Status(Outcome::Failure { error: unreadable_error() }),
        }),
        Ok(sounds) => {
            if sounds.len() == 0 {
                PlayDecision::Refuse(Reply {
                    status: 404,
                    body: Body::Status(Outcome::Failure { error: empty_error() }),
                })
            } else {
                let first = sounds[0].clone();
                assert(listing_has(sounds@, first@)) by {
                    assert(sounds@[0]@ == first@);
                }
                play_sound_request(dir, &sounds, first)
            }
        }
    }
}

} // verus!
