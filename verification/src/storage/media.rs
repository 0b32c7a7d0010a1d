//! Buckets of the object storage.

use vstd::prelude::*;
use vstd::string::*;

verus! {

/// A bucket of the object storage.
#[derive(Debug, Clone)]
pub struct Bucket {
    pub name: String,
}

/// Why the answer of the storage names no bucket.
#[derive(Debug, Clone, Copy, PartialEq, Eq, Structural)]
pub enum BucketError {
    /// The storage created the bucket and did not say where.
    NoLocation,
}

/// The characters of `location` that are no slash, in order.
pub open spec fn without_slashes(location: Seq<char>) -> Seq<char> {
    location.filter(|c: char| c != '/')
}

/// A copy of `location` without its slashes: every slash leaves, every
/// other character stays where it was. Each character is looked up from
/// the beginning of the text, which is fit for the short texts that name a
/// bucket.
fn remove_slashes(location: &str) -> (r: String)
    ensures
        r@ == without_slashes(location@),
{
    let n: usize = location.unicode_len();
    let mut kept = String::new();
    let mut i: usize = 0;
    proof {
        reveal(Seq::filter);
        assert(location@.take(0) =~= Seq::<char>::empty());
    }
    while i < n
        invariant
            i <= n,
            n == location@.len(),
            kept@ == without_slashes(location@.take(i as int)),
        decreases n - i,
    {
        let c = location.get_char(i);
        proof {
            reveal(Seq::filter);
            assert(location@.take(i + 1).drop_last() =~= location@.take(i as int));
            assert(location@.take(i + 1).last() == c);
        }
        if c != '/' {
            kept.append(location.substring_char(i, i + 1));
            assert(location@.subrange(i as int, i + 1) =~= seq![c]);
            assert(kept@ =~= without_slashes(location@.take(i as int)).push(c));
        }
        i += 1;
    }
    assert(location@.take(n as int) =~= location@);
    kept
}

impl Bucket {
    /// The bucket that the storage created, from the location it
    /// answered with: the name is the location without its slashes.
    /// Without a location there is no bucket.
    pub fn try_from_location(location: Option<&str>) -> (r: Result<Bucket, BucketError>)
        ensures
            match location {
                Some(text) => r is Ok && r->Ok_0.name@ == without_slashes(text@),
                None => r == Err::<Bucket, BucketError>(BucketError::NoLocation),
            },
    {
        match location {
            Some(text) => Ok(Bucket { name: remove_slashes(text) }),
            None => Err(BucketError::NoLocation),
        }
    }
}

} // verus!
