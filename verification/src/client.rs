//! The entry point: where the blobs live, and the steps that open a
//! collection.
//!
//! To open a collection, send `lookup` and hand the reply to `collection`.
//! Where the blob exists, that gives the collection. Where it does not, it
//! gives the request that creates the blob with no records in it; send it
//! and hand the reply to `created`.

use url::Url;
use vstd::prelude::*;
use vstd::string::*;
use vstd::utf8::encode_utf8;

use crate::b64::{base64_text, encode_bytes};
use crate::collection::{Collection, CollectionView};
use crate::error::{ClientError, ErrorKind};
use crate::exchange::{
    creation_body, creation_body_text, fetched, read_fetched, read_snapshot, snapshot, Method,
    Reply, Request, NOT_FOUND,
};
use crate::locator::{
    length, lemma_text_size, parse, parsed_url, url_length, url_with_path, with_path, MAX_PART,
};

verus! {

/// The entrypoint for your database connection.
#[derive(Debug)]
pub struct Client {
    owner: String,
    repo: String,
    host: Url,
    path_prefix: Option<String>,
    auth: String,
}

/// What a client is: the owner and the repository of the blobs, the host
/// that serves them, the prefix of their paths (empty where there is none)
/// and the token that authorizes the requests.
pub struct ClientView {
    pub owner: Seq<char>,
    pub repo: Seq<char>,
    pub host: Url,
    pub path_prefix: Seq<char>,
    pub auth: Seq<char>,
}

/// What `collection` gives.
#[derive(Debug)]
pub enum Opened {
    /// The blob exists: the collection.
    Ready(Collection),
    /// The blob does not exist: the request that creates it.
    Create(Request),
}

/// What opening a collection comes to.
pub enum Opening {
    Ready(CollectionView),
    Create { url: Url, body: Seq<u8> },
}

/// The address of the host: the one given, or that of GitHub.
pub open spec fn host_text(host: Option<String>) -> Seq<char> {
    match host {
        Some(text) => text@,
        None => "https://api.github.com"@,
    }
}

/// The path prefix: the one given, or none.
pub open spec fn prefix_text(path_prefix: Option<String>) -> Seq<char> {
    match path_prefix {
        Some(text) => text@,
        None => Seq::empty(),
    }
}

/// The client that the given settings describe, or why there is none.
pub open spec fn configured(
    auth: Seq<char>,
    owner: Seq<char>,
    repo: Seq<char>,
    host: Option<String>,
    path_prefix: Option<String>,
) -> Result<ClientView, ErrorKind> {
    match parsed_url(host_text(host)) {
        None => Err(ErrorKind::Parse),
        Some(url) => if url_length(url) > MAX_PART || encode_utf8(owner).len() > MAX_PART
            || encode_utf8(repo).len() > MAX_PART || encode_utf8(prefix_text(path_prefix)).len()
            > MAX_PART {
            Err(ErrorKind::TooLarge)
        } else {
            Ok(
                ClientView {
                    owner,
                    repo,
                    host: url,
                    path_prefix: prefix_text(path_prefix),
                    auth,
                },
            )
        },
    }
}

/// The path under which the backend keeps `path`.
pub open spec fn contents_path(
    owner: Seq<char>,
    repo: Seq<char>,
    path_prefix: Seq<char>,
    path: Seq<char>,
) -> Seq<char> {
    "/repos/"@ + owner + "/"@ + repo + "/contents/"@ + path_prefix + path
}

/// The address of the blob of the collection `name`.
pub open spec fn blob_url(c: ClientView, name: Seq<char>) -> Url {
    url_with_path(c.host, contents_path(c.owner, c.repo, c.path_prefix, name + ".json"@))
}

/// The content of a blob without records: an empty JSON array in base64.
pub open spec fn seed_content() -> Seq<u8> {
    base64_text(encode_utf8("[]"@))
}

/// What the reply to `lookup` makes of the collection `name`.
pub open spec fn opening(c: ClientView, name: Seq<char>, reply: Reply) -> Result<
    Opening,
    ErrorKind,
> {
    if encode_utf8(name).len() > MAX_PART {
        Err(ErrorKind::TooLarge)
    } else {
        match reply {
            Reply::Failed { .. } => Err(ErrorKind::Http),
            Reply::Received { status, body } => if status == NOT_FOUND {
                Ok(
                    Opening::Create {
                        url: blob_url(c, name),
                        body: creation_body_text(name, seed_content()),
                    },
                )
            } else {
                match snapshot(body@) {
                    Err(kind) => Err(kind),
                    Ok((records, token)) => Ok(
                        Opening::Ready(
                            CollectionView { name, url: blob_url(c, name), records, token },
                        ),
                    ),
                }
            },
        }
    }
}

/// What the reply to the creating write makes of the collection `name`.
pub open spec fn creation(c: ClientView, name: Seq<char>, reply: Reply) -> Result<
    CollectionView,
    ErrorKind,
> {
    if encode_utf8(name).len() > MAX_PART {
        Err(ErrorKind::TooLarge)
    } else {
        match fetched(reply) {
            Err(kind) => Err(kind),
            Ok((records, token)) => Ok(
                CollectionView { name, url: blob_url(c, name), records, token },
            ),
        }
    }
}

impl View for Client {
    type V = ClientView;

    closed spec fn view(&self) -> ClientView {
        ClientView {
            owner: self.owner@,
            repo: self.repo@,
            host: self.host,
            path_prefix: prefix_text(self.path_prefix),
            auth: self.auth@,
        }
    }
}

impl Clone for Client {
    fn clone(&self) -> (copy: Client)
        ensures
            copy@ == self@,
    {
        proof {
            use_type_invariant(self);
        }
        Client {
            owner: self.owner.clone(),
            repo: self.repo.clone(),
            host: self.host.clone(),
            path_prefix: match &self.path_prefix {
                Some(text) => Some(text.clone()),
                None => None,
            },
            auth: self.auth.clone(),
        }
    }
}

impl Client {
    #[verifier::type_invariant]
    spec fn within_limits(&self) -> bool {
        &&& url_length(self.host) <= MAX_PART
        &&& encode_utf8(self.owner@).len() <= MAX_PART
        &&& encode_utf8(self.repo@).len() <= MAX_PART
        &&& encode_utf8(prefix_text(self.path_prefix)).len() <= MAX_PART
    }

    /// Create a new [`Client`].
    ///
    /// Fails with `Parse` where the host is no absolute URL, and with
    /// `TooLarge` where the host as written out, the owner, the repository
    /// or the path prefix is longer than `MAX_PART`.
    pub fn new(
        auth_token: &str,
        owner: &str,
        repo: &str,
        host: Option<String>,
        path_prefix: Option<String>,
    ) -> (r: Result<Client, ClientError>)
        ensures
            match r {
                Ok(client) => configured(auth_token@, owner@, repo@, host, path_prefix) == Ok::<
                    ClientView,
                    ErrorKind,
                >(client@),
                Err(e) => configured(auth_token@, owner@, repo@, host, path_prefix) == Err::<
                    ClientView,
                    ErrorKind,
                >(e.kind()),
            },
    {
        let parsed = match &host {
            Some(text) => parse(text.as_str()),
            None => parse("https://api.github.com"),
        };
        let url = match parsed {
            Err(e) => { return Err(ClientError::Parse(e)); },
            Ok(url) => url,
        };
        let prefix_len: usize = match &path_prefix {
            Some(text) => text.as_str().as_bytes().len(),
            None => 0,
        };
        if length(&url) > MAX_PART || owner.as_bytes().len() > MAX_PART || repo.as_bytes().len()
            > MAX_PART || prefix_len
            > MAX_PART {
            return Err(ClientError::TooLarge);
        }
        Ok(
            Client {
                owner: String::from_str(owner),
                repo: String::from_str(repo),
                host: url,
                path_prefix,
                auth: String::from_str(auth_token),
            },
        )
    }

    /// The value of the `Authorization` header of every request.
    pub fn authorization(&self) -> (value: String)
        ensures
            value@ == "Bearer "@ + self@.auth,
    {
        String::from_str("Bearer ").concat(self.auth.as_str())
    }

    /// The value of the `User-Agent` header of every request.
    pub fn user_agent(&self) -> (value: String)
        ensures
            value@ == self@.owner + "-"@ + self@.repo,
    {
        self.owner.clone().concat("-").concat(self.repo.as_str())
    }

    /// The value of the `Accept` header of every request.
    pub fn accept(&self) -> (value: String)
        ensures
            value@ == "application/vnd.github+json"@,
    {
        String::from_str("application/vnd.github+json")
    }

    /// The address under which the backend serves `path`.
    pub fn create_url(&self, path: Option<&str>) -> (url: Url)
        requires
            match path {
                Some(text) => text@.len() <= 2 * MAX_PART,
                None => true,
            },
        ensures
            url == url_with_path(
                self@.host,
                contents_path(
                    self@.owner,
                    self@.repo,
                    self@.path_prefix,
                    match path {
                        Some(text) => text@,
                        None => Seq::empty(),
                    },
                ),
            ),
    {
        proof {
            use_type_invariant(self);
            lemma_text_size(self.owner@);
            lemma_text_size(self.repo@);
            lemma_text_size(prefix_text(self.path_prefix));
            reveal_strlit("/repos/");
            reveal_strlit("/");
            reveal_strlit("/contents/");
        }
        let mut full = String::from_str("/repos/");
        full.append(self.owner.as_str());
        full.append("/");
        full.append(self.repo.as_str());
        full.append("/contents/");
        if let Some(text) = &self.path_prefix {
            full.append(text.as_str());
        }
        if let Some(text) = path {
            full.append(text);
        }
        with_path(&self.host, full.as_str())
    }

    /// The address of the blob of the collection `name`, or `None` where the
    /// name is longer than `MAX_PART`.
    pub fn locate(&self, name: &str) -> (url: Option<Url>)
        ensures
            match url {
                Some(u) => u == blob_url(self@, name@) && encode_utf8(name@).len() <= MAX_PART,
                None => encode_utf8(name@).len() > MAX_PART,
            },
    {
        if name.as_bytes().len() > MAX_PART {
            return None;
        }
        proof {
            lemma_text_size(name@);
            reveal_strlit(".json");
        }
        let file = String::from_str(name).concat(".json");
        Some(self.create_url(Some(file.as_str())))
    }

    /// The request that reads the blob of the collection `name`.
    ///
    /// Fails with `TooLarge` where the name is longer than `MAX_PART`.
    pub fn lookup(&self, name: &str) -> (r: Result<Request, ClientError>)
        ensures
            match r {
                Ok(request) => {
                    &&& encode_utf8(name@).len() <= MAX_PART
                    &&& request.method == Method::Get
                    &&& request.url == blob_url(self@, name@)
                    &&& request.body@ == Seq::<u8>::empty()
                },
                Err(e) => e.kind() == ErrorKind::TooLarge && encode_utf8(name@).len() > MAX_PART,
            },
    {
        match self.locate(name) {
            None => Err(ClientError::TooLarge),
            Some(url) => Ok(Request { method: Method::Get, url, body: Vec::new() }),
        }
    }

    /// Return a reference to a collection in the database, from the reply to
    /// `lookup`.
    ///
    /// If it doesn't exist in the repository, which the backend reports with
    /// the status `NOT_FOUND`, the result is the request that creates it
    /// with no records; the reply to that goes to `created`.
    pub fn collection(&self, name: &str, reply: &Reply) -> (r: Result<Opened, ClientError>)
        ensures
            match r {
                Ok(Opened::Ready(c)) => opening(self@, name@, *reply) == Ok::<Opening, ErrorKind>(
                    Opening::Ready(c@),
                ),
                Ok(Opened::Create(request)) => opening(self@, name@, *reply) == Ok::<
                    Opening,
                    ErrorKind,
                >(Opening::Create { url: request.url, body: request.body@ }) && request.method
                    == Method::Put,
                Err(e) => opening(self@, name@, *reply) == Err::<Opening, ErrorKind>(e.kind()),
            },
    {
        let url = match self.locate(name) {
            None => { return Err(ClientError::TooLarge); },
            Some(url) => url,
        };
        match reply {
            Reply::Failed { reason } => Err(ClientError::Http(reason.clone())),
            Reply::Received { status, body } => {
                if *status == NOT_FOUND {
                    proof {
                        lemma_text_size("[]"@);
                        reveal_strlit("[]");
                    }
                    let content = encode_bytes("[]".as_bytes());
                    let body = creation_body(name, content.as_slice());
                    Ok(Opened::Create(Request { method: Method::Put, url, body }))
                } else {
                    match read_snapshot(body.as_slice()) {
                        Err(e) => Err(e),
                        Ok((records, token)) => Ok(
                            Opened::Ready(
                                Collection::new(String::from_str(name), url, records, token),
                            ),
                        ),
                    }
                }
            },
        }
    }

    /// The collection `name` that was just created, from the reply to the
    /// creating write. The reply is read as the reply to a read is.
    pub fn created(&self, name: &str, reply: &Reply) -> (r: Result<Collection, ClientError>)
        ensures
            match r {
                Ok(c) => creation(self@, name@, *reply) == Ok::<CollectionView, ErrorKind>(c@),
                Err(e) => creation(self@, name@, *reply) == Err::<CollectionView, ErrorKind>(
                    e.kind(),
                ),
            },
    {
        let url = match self.locate(name) {
            None => { return Err(ClientError::TooLarge); },
            Some(url) => url,
        };
        match read_fetched(reply) {
            Err(e) => Err(e),
            Ok((records, token)) => Ok(
                Collection::new(String::from_str(name), url, records, token),
            ),
        }
    }
}

} // verus!
