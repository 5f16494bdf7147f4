use vstd::prelude::*;
use crate::headers::Headers;

verus! {

/// What every request of one client starts from.
#[derive(Debug)]
pub struct AxiosConfig {
    /// The text that every request's path is appended to.
    pub base_url: String,
    /// The headers that every request carries unless it writes over them.
    pub headers: Headers,
    /// How long the transport may take, in milliseconds.
    pub timeout: u32,
}

impl AxiosConfig {
    /// The configuration that `default` gives: no base, no headers, ten
    /// seconds.
    pub open spec fn is_initial(&self) -> bool {
        &&& self.base_url@ == Seq::<char>::empty()
        &&& self.headers@ == Map::<Seq<char>, Seq<char>>::empty()
        &&& self.timeout == 10000
    }

    /// Creates the default configuration.
    pub fn new() -> (config: AxiosConfig)
        ensures
            config.is_initial(),
    {
        AxiosConfig { base_url: String::new(), headers: Headers::new(), timeout: 10000 }
    }
}

impl Default for AxiosConfig {
    fn default() -> (config: Self)
        ensures
            config.is_initial(),
    {
        AxiosConfig::new()
    }
}

impl Clone for AxiosConfig {
    fn clone(&self) -> (copy: Self)
        ensures
            copy.base_url@ == self.base_url@,
            copy.headers@ == self.headers@,
            copy.timeout == self.timeout,
    {
        AxiosConfig {
            base_url: self.base_url.clone(),
            headers: self.headers.clone(),
            timeout: self.timeout,
        }
    }
}

/// What one request asks for.
#[derive(Debug)]
pub struct AxiosRequestConfig {
    /// The path, appended to the client's base as it stands.
    pub url: String,
    /// The token of the method; `None` asks for `GET`.
    pub method: Option<String>,
    /// Headers of this request alone, written over the client's.
    pub headers: Option<Headers>,
}

impl AxiosRequestConfig {
    /// The token of the method, as text, if one is given.
    pub open spec fn method_token(&self) -> Option<Seq<char>> {
        match self.method {
            Some(token) => Some(token@),
            None => None,
        }
    }

    /// The headers of this request alone; none where none are given.
    pub open spec fn own_headers(&self) -> Map<Seq<char>, Seq<char>> {
        match self.headers {
            Some(headers) => headers@,
            None => Map::empty(),
        }
    }
}

impl Default for AxiosRequestConfig {
    /// An empty path, the method `GET`, no headers.
    fn default() -> (config: Self)
        ensures
            config.url@ == Seq::<char>::empty(),
            config.method_token() == Some("GET"@),
            config.headers is None,
    {
        AxiosRequestConfig { url: String::new(), method: Some("GET".to_owned()), headers: None }
    }
}

} // verus!
