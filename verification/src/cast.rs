//! Capability views, derived mechanically from the upcast chain.
//!
//! Any type that statically upcasts to a class automatically gains the
//! matching "as" accessor; no view is declared by hand per pair of types.

use vstd::prelude::*;

use crate::gio::{AsyncResult, Cancellable, File, FileInputStream, InputStream};
use crate::object::{AsObject, Object, ObjectType, Upcast};

verus! {

/// Exposes a value as an async-result token.
pub trait AsAsyncResult {
    /// The operation index of the exposed token.
    spec fn token_spec(&self) -> int;

    /// The value seen as an async-result token.
    fn as_async_result(&self) -> (r: AsyncResult)
        ensures
            r.op as int == self.token_spec(),
    ;
}

impl AsAsyncResult for AsyncResult {
    open spec fn token_spec(&self) -> int {
        self.op as int
    }

    fn as_async_result(&self) -> AsyncResult {
        *self
    }
}

/// View of the cancellation-token class.
pub trait AsCancellable: AsObject {
    /// The handle seen as a cancellation token.
    fn as_cancellable(&self) -> (c: Cancellable)
        ensures
            c.id_spec() == self.id_spec(),
    ;
}

impl<T: Upcast<Cancellable> + Upcast<Object>> AsCancellable for T {
    fn as_cancellable(&self) -> Cancellable {
        self.upcast()
    }
}

/// View of the readable-stream class.
pub trait AsInputStream: AsObject {
    /// The handle seen as a readable stream.
    fn as_input_stream(&self) -> (s: InputStream)
        ensures
            s.id_spec() == self.id_spec(),
    ;
}

impl<T: Upcast<InputStream> + Upcast<Object>> AsInputStream for T {
    fn as_input_stream(&self) -> InputStream {
        self.upcast()
    }
}

/// View of the file-backed stream class.
pub trait AsFileInputStream: AsInputStream {
    /// The handle seen as a file-backed stream.
    fn as_file_input_stream(&self) -> (s: FileInputStream)
        ensures
            s.id_spec() == self.id_spec(),
    ;
}

impl<T: Upcast<FileInputStream> + Upcast<InputStream> + Upcast<Object>> AsFileInputStream for T {
    fn as_file_input_stream(&self) -> FileInputStream {
        self.upcast()
    }
}

/// View of the file class.
pub trait AsFile: ObjectType {
    /// The handle seen as a file.
    fn as_file(&self) -> (f: File)
        ensures
            f.id_spec() == self.id_spec(),
    ;
}

impl<T: Upcast<File>> AsFile for T {
    fn as_file(&self) -> File {
        self.upcast()
    }
}

} // verus!
