//! The closed set of HTTP verbs that a handler can answer for.

use vstd::prelude::*;

use crate::text::str_eq;

verus! {

/// A request method that the dispatch contract knows.
#[derive(Clone, Copy, Debug, PartialEq, Eq, Structural)]
pub enum HttpMethod {
    Get,
    Post,
    Put,
    Delete,
    Patch,
    Head,
    Options,
}

impl HttpMethod {
    /// The verb token of a method, as it stands in a request line.
    pub open spec fn spec_as_str(self) -> Seq<char> {
        match self {
            HttpMethod::Get => "GET"@,
            HttpMethod::Post => "POST"@,
            HttpMethod::Put => "PUT"@,
            HttpMethod::Delete => "DELETE"@,
            HttpMethod::Patch => "PATCH"@,
            HttpMethod::Head => "HEAD"@,
            HttpMethod::Options => "OPTIONS"@,
        }
    }

    /// The method that a verb token names, if it names one.
    pub open spec fn spec_from_str(verb: Seq<char>) -> Option<HttpMethod> {
        if verb == "GET"@ {
            Some(HttpMethod::Get)
        } else if verb == "POST"@ {
            Some(HttpMethod::Post)
        } else if verb == "PUT"@ {
            Some(HttpMethod::Put)
        } else if verb == "DELETE"@ {
            Some(HttpMethod::Delete)
        } else if verb == "PATCH"@ {
            Some(HttpMethod::Patch)
        } else if verb == "HEAD"@ {
            Some(HttpMethod::Head)
        } else if verb == "OPTIONS"@ {
            Some(HttpMethod::Options)
        } else {
            None
        }
    }

    /// The method that the name of an annotation stands for: each verb in
    /// lower case, capitalised or in upper case.
    pub open spec fn spec_from_annotation(name: Seq<char>) -> Option<HttpMethod> {
        if name == "get"@ || name == "Get"@ || name == "GET"@ {
            Some(HttpMethod::Get)
        } else if name == "post"@ || name == "Post"@ || name == "POST"@ {
            Some(HttpMethod::Post)
        } else if name == "put"@ || name == "Put"@ || name == "PUT"@ {
            Some(HttpMethod::Put)
        } else if name == "delete"@ || name == "Delete"@ || name == "DELETE"@ {
            Some(HttpMethod::Delete)
        } else if name == "patch"@ || name == "Patch"@ || name == "PATCH"@ {
            Some(HttpMethod::Patch)
        } else if name == "head"@ || name == "Head"@ || name == "HEAD"@ {
            Some(HttpMethod::Head)
        } else if name == "options"@ || name == "Options"@ || name == "OPTIONS"@ {
            Some(HttpMethod::Options)
        } else {
            None
        }
    }

    /// The verb token of this method.
    pub fn as_str(&self) -> (verb: &'static str)
        ensures
            verb@ == self.spec_as_str(),
    {
        match self {
            HttpMethod::Get => "GET",
            HttpMethod::Post => "POST",
            HttpMethod::Put => "PUT",
            HttpMethod::Delete => "DELETE",
            HttpMethod::Patch => "PATCH",
            HttpMethod::Head => "HEAD",
            HttpMethod::Options => "OPTIONS",
        }
    }

    /// Looks a verb token up; `None` for a token that names no method.
    pub fn from_str(verb: &str) -> (method: Option<HttpMethod>)
        ensures
            method == Self::spec_from_str(verb@),
    {
        if str_eq(verb, "GET") {
            Some(HttpMethod::Get)
        } else if str_eq(verb, "POST") {
            Some(HttpMethod::Post)
        } else if str_eq(verb, "PUT") {
            Some(HttpMethod::Put)
        } else if str_eq(verb, "DELETE") {
            Some(HttpMethod::Delete)
        } else if str_eq(verb, "PATCH") {
            Some(HttpMethod::Patch)
        } else if str_eq(verb, "HEAD") {
            Some(HttpMethod::Head)
        } else if str_eq(verb, "OPTIONS") {
            Some(HttpMethod::Options)
        } else {
            None
        }
    }

    /// Looks the name of an annotation up; `None` for a name that is no verb.
    pub fn from_annotation(name: &str) -> (method: Option<HttpMethod>)
        ensures
            method == Self::spec_from_annotation(name@),
    {
        if str_eq(name, "get") || str_eq(name, "Get") || str_eq(name, "GET") {
            Some(HttpMethod::Get)
        } else if str_eq(name, "post") || str_eq(name, "Post") || str_eq(name, "POST") {
            Some(HttpMethod::Post)
        } else if str_eq(name, "put") || str_eq(name, "Put") || str_eq(name, "PUT") {
            Some(HttpMethod::Put)
        } else if str_eq(name, "delete") || str_eq(name, "Delete") || str_eq(name, "DELETE") {
            Some(HttpMethod::Delete)
        } else if str_eq(name, "patch") || str_eq(name, "Patch") || str_eq(name, "PATCH") {
            Some(HttpMethod::Patch)
        } else if str_eq(name, "head") || str_eq(name, "Head") || str_eq(name, "HEAD") {
            Some(HttpMethod::Head)
        } else if str_eq(name, "options") || str_eq(name, "Options") || str_eq(name, "OPTIONS") {
            Some(HttpMethod::Options)
        } else {
            None
        }
    }
}

/// Every method is found again under its own verb token.
pub proof fn lemma_verb_round_trip(method: HttpMethod)
    ensures
        HttpMethod::spec_from_str(method.spec_as_str()) == Some(method),
{
    reveal_strlit("GET");
    reveal_strlit("POST");
    reveal_strlit("PUT");
    reveal_strlit("DELETE");
    reveal_strlit("PATCH");
    reveal_strlit("HEAD");
    reveal_strlit("OPTIONS");
    let verb = method.spec_as_str();
    assert("GET"@.len() == 3 && "POST"@.len() == 4 && "PUT"@.len() == 3);
    assert("DELETE"@.len() == 6 && "PATCH"@.len() == 5 && "HEAD"@.len() == 4);
    assert("OPTIONS"@.len() == 7);
    assert("GET"@[0] == 'G' && "PUT"@[0] == 'P');
    assert("POST"@[0] == 'P' && "HEAD"@[0] == 'H');
}

} // verus!
