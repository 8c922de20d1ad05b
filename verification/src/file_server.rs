//! The part of a file-serving handler's settings that routing decides.

use vstd::prelude::*;
use crate::target::text_option_view;
use crate::target::clone_text_option;

verus! {

/// Root directory and routing prefix of a file-serving handler.
#[derive(Debug)]
pub struct FileServer {
    pub root: Option<String>,
    pub prefix: String,
}

/// Mathematical model of a [`FileServer`].
pub struct FileServerModel {
    pub root: Option<Seq<char>>,
    pub prefix: Seq<char>,
}

impl View for FileServer {
    type V = FileServerModel;

    open spec fn view(&self) -> FileServerModel {
        FileServerModel { root: text_option_view(self.root), prefix: self.prefix@ }
    }
}

impl Clone for FileServer {
    fn clone(&self) -> (copy: Self)
        ensures
            copy@ == self@,
    {
        FileServer { root: clone_text_option(&self.root), prefix: self.prefix.clone() }
    }
}

/// A prefix without its one trailing slash, if it has one.
pub open spec fn trimmed_prefix(prefix: Seq<char>) -> Seq<char> {
    if prefix.len() > 0 && prefix.last() == '/' {
        prefix.drop_last()
    } else {
        prefix
    }
}

/// Calls `wenmeng::FileServer::set_prefix` on a fresh handler and reads the
/// prefix it keeps. Trusted: the handler stores the prefix with one trailing
/// slash removed.
#[verifier::external_body]
fn stored_prefix(prefix: String) -> (kept: String)
    ensures
        kept@ == trimmed_prefix(prefix@),
{
    let mut server = wenmeng::FileServer::new(String::new(), String::new());
    server.set_prefix(prefix);
    server.prefix
}

impl FileServer {
    /// A handler with the given root and prefix, the prefix as the handler
    /// stores it.
    pub fn new(root: Option<String>, prefix: String) -> (server: Self)
        ensures
            server@ == (FileServerModel {
                root: text_option_view(root),
                prefix: trimmed_prefix(prefix@),
            }),
    {
        FileServer { root, prefix: stored_prefix(prefix) }
    }

    /// Sets the routing prefix.
    pub fn set_prefix(&mut self, prefix: String)
        ensures
            final(self)@ == (FileServerModel {
                root: old(self)@.root,
                prefix: trimmed_prefix(prefix@),
            }),
    {
        self.prefix = stored_prefix(prefix);
    }
}

} // verus!
