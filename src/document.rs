use vstd::prelude::*;
use crate::title::{bound_file_name, document_title, title_of};

verus! {

/// The text a new editor window starts with.
pub const SAMPLE_TEXT: &'static str = "# Welcome to Galactic Markdown

Start typing your markdown here!

## Features
- Live preview
- **Bold** and *italic* text
- `inline code` and code blocks

```rust
fn main() {
    println!(\"Hello, Markdown!\");
}
```

> Edit this text to see the preview update.

### Lists
1. Numbered lists
2. With sub-items
   - Like this
   - And this

### Tables
| Header 1 | Header 2 |
|----------|----------|
| Cell 1    | Cell 2   |
| Cell 3    | Cell 4   |

### Links and Images
[Visit Rust](https://www.rust-lang.org/)

![Rust Logo](https://www.rust-lang.org/logos/rust-logo-128x128.png)
";

/// What a document is, abstractly: its text, the file it is bound to, and
/// whether the text changed since it was last loaded or saved.
pub struct DocState {
    pub buffer: Seq<char>,
    pub bound_path: Option<Seq<char>>,
    pub dirty: bool,
}

/// A change that a document goes through. A file operation that fails makes
/// no change at all.
pub enum Change {
    /// The text was edited, and now reads as given.
    Edit(Seq<char>),
    /// A fresh, untitled document was started.
    Clear,
    /// A file was read: its path, then its contents.
    Load(Seq<char>, Seq<char>),
    /// The text was written to the given path.
    Store(Seq<char>),
}

/// A change after which the document counts as clean.
pub open spec fn is_reset(c: Change) -> bool {
    !(c is Edit)
}

/// The state after change `c` from state `s`.
pub open spec fn apply(s: DocState, c: Change) -> DocState {
    match c {
        Change::Edit(text) => DocState { buffer: text, bound_path: s.bound_path, dirty: true },
        Change::Clear => DocState { buffer: Seq::empty(), bound_path: None, dirty: false },
        Change::Load(path, text) => DocState { buffer: text, bound_path: Some(path), dirty: false },
        Change::Store(path) => DocState { buffer: s.buffer, bound_path: Some(path), dirty: false },
    }
}

/// The state reached from `s` through the changes `cs`, in order.
pub open spec fn apply_all(s: DocState, cs: Seq<Change>) -> DocState
    decreases cs.len(),
{
    if cs.len() == 0 {
        s
    } else {
        apply(apply_all(s, cs.drop_last()), cs.last())
    }
}

/// The path that saving writes to: the bound one, or else the one the user
/// picks when asked.
pub open spec fn save_destination(s: DocState, chosen: Seq<char>) -> Seq<char> {
    match s.bound_path {
        Some(p) => p,
        None => chosen,
    }
}

/// The error of a file operation, with the message that the system gave.
pub enum FileError {
    Read(String),
    Write(String),
}

/// The line reported for a file error.
pub open spec fn error_message(e: FileError) -> Seq<char> {
    match e {
        FileError::Read(m) => "Error reading file: "@ + m@,
        FileError::Write(m) => "Error saving file: "@ + m@,
    }
}

impl FileError {
    /// The line to report for this error.
    pub fn message(&self) -> (r: String)
        ensures
            r@ == error_message(*self),
    {
        match self {
            FileError::Read(m) => {
                let mut s = "Error reading file: ".to_owned();
                s.append(m.as_str());
                s
            },
            FileError::Write(m) => {
                let mut s = "Error saving file: ".to_owned();
                s.append(m.as_str());
                s
            },
        }
    }
}

/// The editor's document. Every state of the three fields is a valid one.
pub struct Document {
    pub buffer: String,
    pub bound_path: Option<String>,
    pub dirty: bool,
}

/// A bound path as text.
pub open spec fn path_view(p: Option<String>) -> Option<Seq<char>> {
    match p {
        Some(s) => Some(s@),
        None => None,
    }
}

impl View for Document {
    type V = DocState;

    open spec fn view(&self) -> DocState {
        DocState { buffer: self.buffer@, bound_path: path_view(self.bound_path), dirty: self.dirty }
    }
}

impl Default for Document {
    /// The document of a new editor window: the sample text, untitled, clean.
    fn default() -> (r: Self)
        ensures
            r.buffer@ == SAMPLE_TEXT@,
            r.bound_path is None,
            !r.dirty,
    {
        Document { buffer: SAMPLE_TEXT.to_owned(), bound_path: None, dirty: false }
    }
}

impl Document {
    /// The title to show: the bound file's name or `Untitled`, followed by
    /// ` *` while there are unsaved changes.
    pub fn title(&self) -> (r: String)
        ensures
            r@ == title_of(bound_file_name(self@.bound_path), self.dirty),
    {
        document_title(&self.bound_path, self.dirty)
    }

    /// Starts a fresh, untitled document, whatever came before.
    pub fn new_file(&mut self)
        ensures
            final(self)@ == apply(old(self)@, Change::Clear),
            final(self).buffer@ == Seq::<char>::empty(),
            final(self).bound_path is None,
            !final(self).dirty,
    {
        self.buffer = String::new();
        self.bound_path = None;
        self.dirty = false;
    }

    /// Replaces the text by an edited one.
    pub fn edit(&mut self, text: String)
        ensures
            final(self)@ == apply(old(self)@, Change::Edit(text@)),
    {
        self.buffer = text;
        self.dirty = true;
    }

    /// Records that the text was edited in place.
    pub fn mark_edited(&mut self)
        ensures
            final(self)@ == apply(old(self)@, Change::Edit(old(self).buffer@)),
    {
        self.dirty = true;
    }

    /// Takes in the outcome of reading the file at `path`: its contents,
    /// or the error that the read gave. On an error the document is left
    /// as it was and the error is handed back.
    pub fn open_file(&mut self, path: String, read: Result<String, String>) -> (r: Result<
        (),
        FileError,
    >)
        ensures
            match read {
                Ok(text) => r is Ok && final(self)@ == apply(
                    old(self)@,
                    Change::Load(path@, text@),
                ),
                Err(m) => r == Err::<(), FileError>(FileError::Read(m)) && final(self)@ == old(
                    self,
                )@,
            },
    {
        match read {
            Ok(text) => {
                self.buffer = text;
                self.bound_path = Some(path);
                self.dirty = false;
                Ok(())
            },
            Err(m) => Err(FileError::Read(m)),
        }
    }

    /// Where saving writes: the bound path, or `None` when the user must be
    /// asked for one, in which case saving is saving as.
    pub fn save_target(&self) -> (r: Option<String>)
        ensures
            path_view(r) == self@.bound_path,
    {
        match &self.bound_path {
            Some(p) => Some(p.clone()),
            None => None,
        }
    }

    /// Takes in the outcome of writing the text to `path`. On success the
    /// document is bound to `path` and clean; on an error it is left as it
    /// was and the error is handed back.
    pub fn save_file_as(&mut self, path: String, written: Result<(), String>) -> (r: Result<
        (),
        FileError,
    >)
        ensures
            match written {
                Ok(_) => r is Ok && final(self)@ == apply(old(self)@, Change::Store(path@)),
                Err(m) => r == Err::<(), FileError>(FileError::Write(m)) && final(self)@ == old(
                    self,
                )@,
            },
    {
        match written {
            Ok(_) => {
                self.bound_path = Some(path);
                self.dirty = false;
                Ok(())
            },
            Err(m) => Err(FileError::Write(m)),
        }
    }

    /// Takes in the outcome of writing the text to the bound path.
    pub fn save_file(&mut self, written: Result<(), String>) -> (r: Result<(), FileError>)
        requires
            old(self).bound_path is Some,
        ensures
            match written {
                Ok(_) => r is Ok && final(self)@ == apply(
                    old(self)@,
                    Change::Store(old(self)@.bound_path->0),
                ),
                Err(m) => r == Err::<(), FileError>(FileError::Write(m)) && final(self)@ == old(
                    self,
                )@,
            },
    {
        let path = match &self.bound_path {
            Some(p) => p.clone(),
            None => String::new(),
        };
        self.save_file_as(path, written)
    }
}

} // verus!
