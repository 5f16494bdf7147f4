use vstd::prelude::*;

verus! {

/// The request methods a client can ask for.
#[derive(Clone, Copy, Debug, PartialEq, Eq, Structural)]
pub enum HttpMethod {
    Get,
    Post,
    Put,
    Patch,
    Delete,
    Head,
    Options,
    Trace,
    Connect,
}

impl HttpMethod {
    /// The token that names the method on the wire.
    pub open spec fn name(self) -> Seq<char> {
        match self {
            HttpMethod::Get => "GET"@,
            HttpMethod::Post => "POST"@,
            HttpMethod::Put => "PUT"@,
            HttpMethod::Patch => "PATCH"@,
            HttpMethod::Delete => "DELETE"@,
            HttpMethod::Head => "HEAD"@,
            HttpMethod::Options => "OPTIONS"@,
            HttpMethod::Trace => "TRACE"@,
            HttpMethod::Connect => "CONNECT"@,
        }
    }

    /// The method that a token names: the token is compared letter for letter,
    /// upper case only, and any other text names no method.
    pub open spec fn named(token: Seq<char>) -> Option<HttpMethod> {
        if token == "GET"@ {
            Some(HttpMethod::Get)
        } else if token == "POST"@ {
            Some(HttpMethod::Post)
        } else if token == "PUT"@ {
            Some(HttpMethod::Put)
        } else if token == "PATCH"@ {
            Some(HttpMethod::Patch)
        } else if token == "DELETE"@ {
            Some(HttpMethod::Delete)
        } else if token == "HEAD"@ {
            Some(HttpMethod::Head)
        } else if token == "OPTIONS"@ {
            Some(HttpMethod::Options)
        } else if token == "TRACE"@ {
            Some(HttpMethod::Trace)
        } else if token == "CONNECT"@ {
            Some(HttpMethod::Connect)
        } else {
            None
        }
    }

    /// The method a request uses when its configuration may leave the token out:
    /// without a token it is `Get`.
    pub open spec fn chosen(token: Option<Seq<char>>) -> Option<HttpMethod> {
        match token {
            None => Some(HttpMethod::Get),
            Some(t) => Self::named(t),
        }
    }

    /// Returns the token of this method.
    pub fn as_str(&self) -> (token: &'static str)
        ensures
            token@ == self.name(),
    {
        match self {
            HttpMethod::Get => "GET",
            HttpMethod::Post => "POST",
            HttpMethod::Put => "PUT",
            HttpMethod::Patch => "PATCH",
            HttpMethod::Delete => "DELETE",
            HttpMethod::Head => "HEAD",
            HttpMethod::Options => "OPTIONS",
            HttpMethod::Trace => "TRACE",
            HttpMethod::Connect => "CONNECT",
        }
    }

    /// Reads a method token. Returns `None` for every text that is not one of the
    /// nine tokens, so that a misspelt method is never sent as another one.
    pub fn string_to_method(token: &str) -> (method: Option<HttpMethod>)
        ensures
            method == Self::named(token@),
    {
        let text = token.to_owned();
        if text == "GET".to_owned() {
            Some(HttpMethod::Get)
        } else if text == "POST".to_owned() {
            Some(HttpMethod::Post)
        } else if text == "PUT".to_owned() {
            Some(HttpMethod::Put)
        } else if text == "PATCH".to_owned() {
            Some(HttpMethod::Patch)
        } else if text == "DELETE".to_owned() {
            Some(HttpMethod::Delete)
        } else if text == "HEAD".to_owned() {
            Some(HttpMethod::Head)
        } else if text == "OPTIONS".to_owned() {
            Some(HttpMethod::Options)
        } else if text == "TRACE".to_owned() {
            Some(HttpMethod::Trace)
        } else if text == "CONNECT".to_owned() {
            Some(HttpMethod::Connect)
        } else {
            None
        }
    }

    /// Every method is read back from its own token.
    pub proof fn lemma_name_is_read_back(method: HttpMethod)
        ensures
            Self::named(method.name()) == Some(method),
    {
        reveal_strlit("GET");
        reveal_strlit("POST");
        reveal_strlit("PUT");
        reveal_strlit("PATCH");
        reveal_strlit("DELETE");
        reveal_strlit("HEAD");
        reveal_strlit("OPTIONS");
        reveal_strlit("TRACE");
        reveal_strlit("CONNECT");
        assert("GET"@.len() == 3 && "PUT"@.len() == 3 && "GET"@[0] != "PUT"@[0]);
        assert("POST"@.len() == 4 && "HEAD"@.len() == 4 && "POST"@[0] != "HEAD"@[0]);
        assert("PATCH"@.len() == 5 && "TRACE"@.len() == 5 && "PATCH"@[0] != "TRACE"@[0]);
        assert("DELETE"@.len() == 6);
        assert("OPTIONS"@.len() == 7 && "CONNECT"@.len() == 7 && "OPTIONS"@[0] != "CONNECT"@[0]);
    }

    /// A token names a method only if it is that method's own token.
    pub proof fn lemma_named_gives_name(token: Seq<char>)
        ensures
            Self::named(token) matches Some(method) ==> method.name() == token,
    {
    }
}

} // verus!
