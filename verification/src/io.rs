//! The snapshot cache contract: a named, whole-collection cache entry per
//! key, kept as one JSON file per key under a caller-supplied directory. The
//! file system work is the surrounding binary's; this module fixes where an
//! entry lives and how the outcome of a read is classified, so that an
//! absent entry stays a recoverable "not found" and never looks like a
//! malformed file.

use vstd::prelude::*;

verus! {

/// Failure of a cache operation.
#[derive(Clone, Debug, PartialEq, Eq)]
pub enum IoError {
    /// The underlying file operation failed, carried as text.
    Io(String),
    /// An entry was present but did not decode.
    SerdeError(String),
    /// The cache directory does not exist; the store never creates it.
    CacheDirectoryNotFound,
}

/// A container that reads and writes cached data under one directory.
#[derive(Clone, Debug)]
pub struct FilesystemCache {
    pub cache_dir: String,
}

impl FilesystemCache {
    /// Accepts the directory only if it was found to exist; the store fails
    /// fast instead of creating directories implicitly.
    pub fn new(cache_dir: String, directory_exists: bool) -> (r: Result<FilesystemCache, IoError>)
        ensures
            directory_exists ==> (r matches Ok(c) && c.cache_dir == cache_dir),
            !directory_exists ==> r == Err::<FilesystemCache, IoError>(
                IoError::CacheDirectoryNotFound,
            ),
    {
        if directory_exists {
            Ok(FilesystemCache { cache_dir })
        } else {
            Err(IoError::CacheDirectoryNotFound)
        }
    }

    /// The file that holds the entry of `key`: `<cache_dir>/<key>.json`.
    pub fn entry_path(&self, key: &str) -> (r: String)
        ensures
            r@ == self.cache_dir@ + "/"@ + key@ + ".json"@,
    {
        let mut path = self.cache_dir.clone();
        path.append("/");
        path.append(key);
        path.append(".json");
        path
    }
}

/// Classifies what a read of an entry's file found: an absent file is the
/// recoverable "not found", distinct from an entry that was present but
/// failed to decode, which is a terminal decoding error.
pub fn interpret_cache_read<T>(contents: Option<Result<T, String>>) -> (r: Result<
    Option<T>,
    IoError,
>)
    ensures
        contents is None ==> r == Ok::<Option<T>, IoError>(None),
        contents matches Some(Ok(v)) ==> r == Ok::<Option<T>, IoError>(Some(v)),
        contents matches Some(Err(e)) ==> r == Err::<Option<T>, IoError>(IoError::SerdeError(e)),
{
    match contents {
        None => Ok(None),
        Some(Ok(v)) => Ok(Some(v)),
        Some(Err(e)) => Err(IoError::SerdeError(e)),
    }
}

} // verus!
