//! The backend that keeps every object as a file in one local directory.

use crate::adapter_trait::{AdapterTrait, GetRequest, Location, PutRequest};
use crate::custom_error::{Error, ErrorKind, ErrorView};
use vstd::prelude::*;

verus! {

/// Whether `filename` is an absolute path, which stands for itself whatever
/// the directory.
pub open spec fn is_absolute(filename: Seq<char>) -> bool {
    filename.len() > 0 && filename[0] == '/'
}

/// The path of `filename` under `directory`: the directory, a separator
/// unless the directory is empty or already ends in one, and the filename.
/// An absolute filename replaces the directory.
pub open spec fn joined_path(directory: Seq<char>, filename: Seq<char>) -> Seq<char> {
    if is_absolute(filename) {
        filename
    } else if directory.len() == 0 || directory.last() == '/' {
        directory + filename
    } else {
        directory + seq!['/'] + filename
    }
}

/// The path of `filename` under `directory`, with `/` as the separator.
pub fn join_path(directory: &str, filename: &str) -> (path: String)
    ensures
        path@ == joined_path(directory@, filename@),
{
    if !filename.is_empty() && filename.get_char(0) == '/' {
        return filename.to_owned();
    }
    let mut path = directory.to_owned();
    let length = directory.unicode_len();
    if length > 0 && directory.get_char(length - 1) != '/' {
        proof {
            reveal_strlit("/");
        }
        path.append("/");
        assert(path@ =~= directory@ + seq!['/']);
    }
    path.append(filename);
    path
}

/// Two relative filenames that differ have two paths, as texts, in any
/// directory. (Two paths that differ may still be one file: `a` and `./a`.)
pub proof fn relative_names_have_distinct_paths(
    directory: Seq<char>,
    first: Seq<char>,
    second: Seq<char>,
)
    requires
        first != second,
        !is_absolute(first),
        !is_absolute(second),
    ensures
        joined_path(directory, first) != joined_path(directory, second),
{
    let prefix = if directory.len() == 0 || directory.last() == '/' {
        directory
    } else {
        directory + seq!['/']
    };
    let one = prefix + first;
    let other = prefix + second;
    assert(joined_path(directory, first) =~= one);
    assert(joined_path(directory, second) =~= other);
    assert(one.subrange(prefix.len() as int, one.len() as int) =~= first);
    assert(other.subrange(prefix.len() as int, other.len() as int) =~= second);
}

/// What an upload through the directory `directory` comes to: always the
/// request to create or truncate the file that `filename` names there and to
/// write `reader` to it.
pub open spec fn writes_file<R>(
    directory: Seq<char>,
    filename: Seq<char>,
    reader: R,
    r: Result<PutRequest<R>, Error>,
) -> bool {
    r matches Ok(PutRequest::WriteFile { path, source }) && path@ == joined_path(
        directory,
        filename,
    ) && source == reader
}

/// What a download through the directory `directory` comes to: always the
/// request to open the file that `filename` names there.
pub open spec fn reads_file(
    directory: Seq<char>,
    filename: Seq<char>,
    r: Result<GetRequest, Error>,
) -> bool {
    r matches Ok(GetRequest::ReadFile { path }) && path@ == joined_path(directory, filename)
}

/// A filesystem backend rooted at one directory.
pub struct Client {
    directory: String,
}

impl Client {
    /// The directory under which every object is kept.
    pub closed spec fn directory(&self) -> Seq<char> {
        self.directory@
    }

    pub fn new(directory: &str) -> (client: Self)
        ensures
            client.directory() == directory@,
    {
        Self { directory: directory.to_owned() }
    }
}

impl AdapterTrait for Client {
    open spec fn locate(&self, filename: Seq<char>) -> Location {
        Location::File(joined_path(self.directory(), filename))
    }

    /// A directory takes every name.
    open spec fn accepts(&self, filename: Seq<char>) -> bool {
        true
    }

    /// A directory refuses no name; a refusal would be a storage error
    /// without a cause.
    open spec fn refusal(&self, filename: Seq<char>) -> ErrorView {
        ErrorView { kind: ErrorKind::StorageError, backend_status: None, chain: Seq::empty() }
    }

    fn put_file<R>(&self, filename: &str, reader: R) -> (r: Result<PutRequest<R>, Error>)
        ensures
            writes_file(self.directory(), filename@, reader, r),
    {
        let path = join_path(self.directory.as_str(), filename);
        Ok(PutRequest::WriteFile { path, source: reader })
    }

    fn get_file(&self, filename: &str) -> (r: Result<GetRequest, Error>)
        ensures
            reads_file(self.directory(), filename@, r),
    {
        let path = join_path(self.directory.as_str(), filename);
        Ok(GetRequest::ReadFile { path })
    }
}

} // verus!
