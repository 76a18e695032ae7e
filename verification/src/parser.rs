//! Holders that tie a bundled JSON dataset to the record type it decodes to.
//!
//! Decoding the dataset is the surrounding program's work: it reads the file
//! (or, on the web target, receives its text) and turns the text into records.
//! The holders themselves are plain values, so their constructors and
//! accessors can be verified here.

use core::marker::PhantomData;
use vstd::prelude::*;

verus! {

/// Names the path of a bundled JSON dataset, together with the record type
/// `T` that the dataset decodes to. Its view is that path.
pub struct JsonParser<T> {
    path: &'static str,
    _owns_t: PhantomData<T>,
}

impl<T> View for JsonParser<T> {
    type V = Seq<char>;

    closed spec fn view(&self) -> Seq<char> {
        self.path@
    }
}

impl<T> JsonParser<T> {
    pub fn new(path: &'static str) -> (parser: Self)
        ensures
            parser@ == path@,
    {
        JsonParser { path, _owns_t: PhantomData }
    }

    /// The path of the dataset this holder was made for.
    pub fn path(&self) -> (path: &'static str)
        ensures
            path@ == self@,
    {
        self.path
    }
}

/// Carries the text of a JSON dataset bundled into the binary, together with
/// the record type `T` that the text decodes to; for the web target, where
/// there is no file system to read a path from. Its view is that text.
pub struct WasmJsonParser<T> {
    file: String,
    _owns_t: PhantomData<T>,
}

impl<T> View for WasmJsonParser<T> {
    type V = Seq<char>;

    closed spec fn view(&self) -> Seq<char> {
        self.file@
    }
}

impl<T> WasmJsonParser<T> {
    pub fn new(file: String) -> (parser: Self)
        ensures
            parser@ == file@,
    {
        WasmJsonParser { file, _owns_t: PhantomData }
    }

    /// The text of the dataset this holder was made for.
    pub fn file(&self) -> (file: &str)
        ensures
            file@ == self@,
    {
        self.file.as_str()
    }
}

} // verus!
