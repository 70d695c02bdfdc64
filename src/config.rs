use vstd::prelude::*;
use vstd::string::*;

verus! {

/// The user agent sent when the application names none.
pub const DEFAULT_USER_AGENT: &'static str = "deeprl/0.1.0";

/// The endpoint for keys of free accounts.
pub const FREE_API_URL: &'static str = "https://api-free.deepl.com/v2";

/// The endpoint for keys of paid accounts.
pub const PRO_API_URL: &'static str = "https://api.deepl.com/v2";

/// Keys of free accounts end in ":fx".
pub open spec fn is_free_key(key: Seq<char>) -> bool {
    key.len() >= 3 && key.subrange(key.len() - 3, key.len() as int) == seq![':', 'f', 'x']
}

/// What a [`ClientConfig`] holds: the endpoint, the application's user agent if it set one,
/// and the value of the authorization header.
pub struct ClientConfigView {
    pub base_url: Seq<char>,
    pub user_agent: Option<Seq<char>>,
    pub auth: Seq<char>,
}

/// What every request of a client carries: the endpoint it goes to, the authorization
/// header made from the key, and the user agent.
#[derive(Clone, Debug)]
pub struct ClientConfig {
    base_url: String,
    user_agent: Option<String>,
    auth: String,
}

impl View for ClientConfig {
    type V = ClientConfigView;

    closed spec fn view(&self) -> ClientConfigView {
        ClientConfigView {
            base_url: self.base_url@,
            user_agent: match self.user_agent {
                Some(a) => Some(a@),
                None => None,
            },
            auth: self.auth@,
        }
    }
}

/// Whether `key` ends in ":fx".
fn free_key(key: &str) -> (r: bool)
    ensures
        r == is_free_key(key@),
{
    let n = key.unicode_len();
    if n < 3 {
        return false;
    }
    let r = key.get_char(n - 3) == ':' && key.get_char(n - 2) == 'f' && key.get_char(n - 1) == 'x';
    assert(r == (key@.subrange(n - 3, n as int) =~= seq![':', 'f', 'x']));
    r
}

impl ClientConfig {
    /// The configuration for an API key: the free endpoint for keys ending in ":fx", the
    /// paid one otherwise; the authorization is "DeepL-Auth-Key " followed by the key.
    pub fn new(key: &str) -> (r: Self)
        ensures
            r@.base_url == (if is_free_key(key@) {
                FREE_API_URL@
            } else {
                PRO_API_URL@
            }),
            r@.auth == "DeepL-Auth-Key "@ + key@,
            r@.user_agent is None,
    {
        let base = if free_key(key) {
            FREE_API_URL
        } else {
            PRO_API_URL
        };
        ClientConfig {
            base_url: String::from_str(base),
            user_agent: None,
            auth: String::from_str("DeepL-Auth-Key ").concat(key),
        }
    }

    /// Sets the application name and version sent as the user agent, e.g. "my-app/1.2.3".
    pub fn set_app_info(&mut self, app: String)
        ensures
            final(self)@ == (ClientConfigView { user_agent: Some(app@), ..old(self)@ }),
    {
        self.user_agent = Some(app);
    }

    /// The user agent sent with every request: the application's, or the default.
    pub fn user_agent(&self) -> (r: String)
        ensures
            r@ == match self@.user_agent {
                Some(a) => a,
                None => DEFAULT_USER_AGENT@,
            },
    {
        match &self.user_agent {
            Some(a) => a.clone(),
            None => String::from_str(DEFAULT_USER_AGENT),
        }
    }

    /// The value of the authorization header.
    pub fn authorization(&self) -> (r: &str)
        ensures
            r@ == self@.auth,
    {
        self.auth.as_str()
    }

    /// The address of an endpoint path such as "usage" or "glossaries".
    pub fn url(&self, path: &str) -> (r: String)
        ensures
            r@ == self@.base_url + "/"@ + path@,
    {
        self.base_url.clone().concat("/").concat(path)
    }
}

} // verus!
