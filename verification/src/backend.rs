//! What upload and download come to together, on a backend that keeps what
//! it is given.
//!
//! The relay never sees a stored byte: it hands out requests and reads
//! replies. What a download brings back therefore rests on the backend and
//! on the caller who performs the requests. This module says what is meant
//! by a backend that keeps what it is given, and proves what the relay's
//! requests and its reading of the replies then come to. A stream is taken
//! for the bytes it yields, a backend for the bytes it holds at each
//! location, and locations that differ as texts for different objects.
//! Nothing here is claimed of a real directory or bucket.

use crate::adapter_trait::{
    distinct_names_have_distinct_locations, Adapter, AdapterTrait, GetReply, GetRequest,
    Location, PutReply, PutRequest,
};
use crate::adapter_fs::is_absolute;
use crate::custom_error::{ErrorKind, ErrorView};
use vstd::prelude::*;

verus! {

/// What a backend holds: the bytes of each object, by location.
pub struct Store {
    pub objects: Map<Location, Seq<u8>>,
}

impl Store {
    /// The store with `bytes` at `location` and everything else as it is.
    pub open spec fn with(self, location: Location, bytes: Seq<u8>) -> Store {
        Store { objects: self.objects.insert(location, bytes) }
    }

    pub open spec fn holds(self, location: Location) -> bool {
        self.objects.dom().contains(location)
    }
}

/// A write that was carried out in full: the object at the request's
/// location holds exactly `bytes`, which is what the request's stream
/// yielded, nothing else in the store has changed, and the reply means
/// success.
pub open spec fn put_done<R>(
    before: Store,
    request: PutRequest<R>,
    bytes: Seq<u8>,
    reply: PutReply,
    after: Store,
) -> bool {
    &&& reply.outcome() is Ok
    &&& after == before.with(request.location(), bytes)
}

/// A read that was answered by a backend within reach: the stream of the
/// object at the request's location, or the report that none is there.
pub open spec fn get_done(store: Store, request: GetRequest, reply: GetReply<Seq<u8>>) -> bool {
    match reply.outcome() {
        Ok(stream) => store.holds(request.location()) && stream == store.objects[request.location()],
        Err(error) => !store.holds(request.location()) && error.kind == ErrorKind::NotFound,
    }
}

/// What is put under a name is got under that name, byte for byte: where an
/// upload of `bytes` under `filename` was carried out and a download of
/// `filename` answered, with nothing written in between, the upload ended in
/// success and the download in a stream of exactly `bytes`, whatever their
/// number.
pub proof fn what_is_put_is_got<R>(
    adapter: Adapter,
    filename: Seq<char>,
    reader: R,
    bytes: Seq<u8>,
    before: Store,
    put: PutRequest<R>,
    stored: PutReply,
    after: Store,
    get: GetRequest,
    fetched: GetReply<Seq<u8>>,
)
    requires
        adapter.put_planned(filename, reader, Ok(put)),
        put_done(before, put, bytes, stored, after),
        adapter.get_planned(filename, Ok(get)),
        get_done(after, get, fetched),
    ensures
        stored.outcome() is Ok,
        fetched.outcome() == Ok::<Seq<u8>, ErrorView>(bytes),
{
    assert(put.location() == get.location());
    assert(after.holds(get.location()));
}

/// What was never put is not found: a download of a name at whose location
/// the store holds nothing ends in not found.
pub proof fn what_was_never_put_is_not_found(
    adapter: Adapter,
    filename: Seq<char>,
    store: Store,
    get: GetRequest,
    fetched: GetReply<Seq<u8>>,
)
    requires
        !store.holds(adapter.locate(filename)),
        adapter.get_planned(filename, Ok(get)),
        get_done(store, get, fetched),
    ensures
        fetched.outcome() matches Err(error) && error.kind == ErrorKind::NotFound,
{
}

/// An upload of no bytes leaves an object of no bytes: it ends in success,
/// and a download of the name then ends in a stream that yields nothing, not
/// in not found.
pub proof fn an_empty_upload_leaves_an_empty_object<R>(
    adapter: Adapter,
    filename: Seq<char>,
    reader: R,
    before: Store,
    put: PutRequest<R>,
    stored: PutReply,
    after: Store,
    get: GetRequest,
    fetched: GetReply<Seq<u8>>,
)
    requires
        adapter.put_planned(filename, reader, Ok(put)),
        put_done(before, put, Seq::<u8>::empty(), stored, after),
        adapter.get_planned(filename, Ok(get)),
        get_done(after, get, fetched),
    ensures
        stored.outcome() is Ok,
        after.holds(adapter.locate(filename)),
        fetched.outcome() matches Ok(stream) && stream.len() == 0,
{
    what_is_put_is_got(
        adapter,
        filename,
        reader,
        Seq::<u8>::empty(),
        before,
        put,
        stored,
        after,
        get,
        fetched,
    );
}

/// The store after the writes of `writes` were carried out one after the
/// other, each a location and the bytes put there. Writes that ran side by
/// side are taken in the order in which the backend finished them.
pub open spec fn after_writes(before: Store, writes: Seq<(Location, Seq<u8>)>) -> Store
    decreases writes.len(),
{
    if writes.len() == 0 {
        before
    } else {
        after_writes(before, writes.drop_last()).with(writes.last().0, writes.last().1)
    }
}

/// Whether no two writes of `writes` go to one location.
pub open spec fn apart(writes: Seq<(Location, Seq<u8>)>) -> bool {
    forall|i: int, j: int|
        0 <= i < j < writes.len() ==> (#[trigger] writes[i]).0 != (#[trigger] writes[j]).0
}

/// Writes to locations that differ stay apart, in whatever order they are
/// finished: afterwards each location holds exactly the bytes of its own
/// write.
pub proof fn writes_apart_are_each_kept(before: Store, writes: Seq<(Location, Seq<u8>)>, i: int)
    requires
        apart(writes),
        0 <= i < writes.len(),
    ensures
        after_writes(before, writes).holds(writes[i].0),
        after_writes(before, writes).objects[writes[i].0] == writes[i].1,
    decreases writes.len(),
{
    let last = writes.len() - 1;
    if i < last {
        let earlier = writes.drop_last();
        assert(apart(earlier)) by {
            assert forall|a: int, b: int| 0 <= a < b < earlier.len() implies (#[trigger] earlier[a]).0
                != (#[trigger] earlier[b]).0 by {
                assert(earlier[a] == writes[a] && earlier[b] == writes[b]);
            }
        }
        writes_apart_are_each_kept(before, earlier, i);
        assert(earlier[i] == writes[i]);
        assert(writes[i].0 != writes[last].0);
    }
}

/// A write changes nothing but its own object: a location that no write of
/// `writes` goes to holds afterwards what it held before, or nothing as
/// before.
pub proof fn writes_leave_the_rest(
    before: Store,
    writes: Seq<(Location, Seq<u8>)>,
    location: Location,
)
    requires
        forall|i: int| 0 <= i < writes.len() ==> (#[trigger] writes[i]).0 != location,
    ensures
        after_writes(before, writes).holds(location) == before.holds(location),
        before.holds(location) ==> after_writes(before, writes).objects[location]
            == before.objects[location],
    decreases writes.len(),
{
    if writes.len() > 0 {
        let earlier = writes.drop_last();
        assert forall|i: int| 0 <= i < earlier.len() implies (#[trigger] earlier[i]).0
            != location by {
            assert(earlier[i] == writes[i]);
        }
        writes_leave_the_rest(before, earlier, location);
        assert(writes.last() == writes[writes.len() - 1]);
    }
}

/// The writes that uploads of `bytes[i]` under `names[i]` come to with
/// `adapter`, in the order of `names`.
pub open spec fn uploads(adapter: Adapter, names: Seq<Seq<char>>, bytes: Seq<Seq<u8>>) -> Seq<
    (Location, Seq<u8>),
> {
    Seq::new(names.len(), |i: int| (adapter.locate(names[i]), bytes[i]))
}

/// Uploads under names that differ are each got back, in whatever order the
/// backend finished them: a download of any one of the names ends in a
/// stream of exactly the bytes that were uploaded under it. In a directory
/// this is said of relative names.
pub proof fn uploads_side_by_side_are_each_got(
    adapter: Adapter,
    names: Seq<Seq<char>>,
    bytes: Seq<Seq<u8>>,
    before: Store,
    i: int,
    get: GetRequest,
    fetched: GetReply<Seq<u8>>,
)
    requires
        names.len() == bytes.len(),
        0 <= i < names.len(),
        forall|a: int, b: int| 0 <= a < b < names.len() ==> #[trigger] names[a] != #[trigger] names[b],
        adapter is Filesystem ==> forall|a: int| 0 <= a < names.len() ==> !is_absolute(#[trigger] names[a]),
        adapter.get_planned(names[i], Ok(get)),
        get_done(after_writes(before, uploads(adapter, names, bytes)), get, fetched),
    ensures
        fetched.outcome() == Ok::<Seq<u8>, ErrorView>(bytes[i]),
{
    let writes = uploads(adapter, names, bytes);
    assert(apart(writes)) by {
        assert forall|a: int, b: int| 0 <= a < b < writes.len() implies (#[trigger] writes[a]).0
            != (#[trigger] writes[b]).0 by {
            assert(names[a] != names[b]);
            distinct_names_have_distinct_locations(adapter, names[a], names[b]);
        }
    }
    writes_apart_are_each_kept(before, writes, i);
    assert(writes[i].0 == get.location());
}

} // verus!
