//! The credential store and the dedup cache kept in it.
//!
//! The store is the in-memory image of the durable key-value records
//! (`user_config`, `oauth_config`, `skipped_files`); reading and writing the
//! records to disk is the caller's concern. A missing or unreadable record is
//! `None` and is treated as "not present", never as an error.
//!
//! The dedup cache is a set of [`SkippedFile`] records with the whole
//! `(filename, size, device_id)` triple as the identity key: a file is never
//! re-uploaded while its record exists.

use vstd::prelude::*;
use vstd::string::*;
use crate::config::ApiConfig;
use crate::config::OAuthConfig;
use crate::config::UserConfig;
use crate::strutil::str_eq;

verus! {

/// A file already confirmed present on the remote service.
pub struct SkippedFile {
    pub filename: String,
    pub size: i64,
    pub device_id: String,
}

impl SkippedFile {
    /// The identity key of the record.
    pub open spec fn key(self) -> (Seq<char>, int, Seq<char>) {
        (self.filename@, self.size as int, self.device_id@)
    }

    /// A record from its parts.
    pub fn new(filename: String, size: i64, device_id: String) -> (r: SkippedFile)
        ensures
            r.filename == filename,
            r.size == size,
            r.device_id == device_id,
    {
        SkippedFile { filename, size, device_id }
    }

    /// A copy of this record.
    pub fn duplicate(&self) -> (r: SkippedFile)
        ensures
            r.key() == self.key(),
    {
        SkippedFile {
            filename: self.filename.clone(),
            size: self.size,
            device_id: self.device_id.clone(),
        }
    }
}

/// The in-memory image of the durable key-value store.
pub struct CredentialStore {
    pub user_config: Option<UserConfig>,
    pub oauth_config: Option<OAuthConfig>,
    pub skipped_files: Option<Vec<SkippedFile>>,
}

/// The key `(filename, size, device_id)` has a record in the store's dedup
/// cache. A missing cache holds nothing.
pub open spec fn spec_is_skipped(
    store: CredentialStore,
    filename: Seq<char>,
    size: int,
    device_id: Seq<char>,
) -> bool {
    match store.skipped_files {
        None => false,
        Some(v) => exists|i: int|
            0 <= i < v@.len() && (#[trigger] v@[i].key()) == (filename, size, device_id),
    }
}

/// The dedup cache holds no two records with the same identity key.
pub open spec fn spec_skipped_wf(store: CredentialStore) -> bool {
    match store.skipped_files {
        None => true,
        Some(v) => forall|i: int, j: int|
            0 <= i < j < v@.len() ==> (#[trigger] v@[i].key()) != (#[trigger] v@[j].key()),
    }
}

impl CredentialStore {
    /// An empty store: no record is present.
    pub fn new() -> (r: CredentialStore)
        ensures
            r.user_config is None,
            r.oauth_config is None,
            r.skipped_files is None,
            spec_skipped_wf(r),
    {
        CredentialStore { user_config: None, oauth_config: None, skipped_files: None }
    }
}

/// The stored dedup-cache records, or `None` when the record is absent.
pub fn load_skipped_files(store: &CredentialStore) -> (r: Option<Vec<SkippedFile>>)
    ensures
        match store.skipped_files {
            None => r is None,
            Some(v) => {
                &&& r is Some
                &&& r->0@.len() == v@.len()
                &&& forall|i: int| 0 <= i < v@.len() ==> r->0@[i].key() == v@[i].key()
            },
        },
{
    match &store.skipped_files {
        None => None,
        Some(v) => {
            let mut out: Vec<SkippedFile> = Vec::new();
            let mut i: usize = 0;
            while i < v.len()
                invariant
                    i <= v.len(),
                    out@.len() == i,
                    forall|k: int| 0 <= k < i ==> out@[k].key() == v@[k].key(),
                decreases v.len() - i,
            {
                out.push(v[i].duplicate());
                i += 1;
            }
            Some(out)
        },
    }
}

/// Replace the stored dedup-cache record with `skipped`.
pub fn save_skipped_files(store: &mut CredentialStore, skipped: Vec<SkippedFile>)
    ensures
        final(store).skipped_files == Some(skipped),
        final(store).user_config == old(store).user_config,
        final(store).oauth_config == old(store).oauth_config,
{
    store.skipped_files = Some(skipped);
}

/// Is the file `(filename, size, device_id)` recorded as already present on
/// the remote? A missing cache record means no.
pub fn is_file_skipped(store: &CredentialStore, filename: &str, size: i64, device_id: &str) -> (r:
    bool)
    ensures
        r == spec_is_skipped(*store, filename@, size as int, device_id@),
{
    match &store.skipped_files {
        None => false,
        Some(v) => {
            let mut i: usize = 0;
            while i < v.len()
                invariant
                    i <= v.len(),
                    store.skipped_files is Some,
                    store.skipped_files->0@ == v@,
                    forall|k: int|
                        0 <= k < i ==> (#[trigger] v@[k].key()) != (
                        filename@,
                        size as int,
                        device_id@,
                        ),
                decreases v.len() - i,
            {
                let f = &v[i];
                if str_eq(f.filename.as_str(), filename) && f.size == size && str_eq(
                    f.device_id.as_str(),
                    device_id,
                ) {
                    assert(v@[i as int].key() == (filename@, size as int, device_id@));
                    return true;
                }
                i += 1;
            }
            false
        },
    }
}

/// Record the file `(filename, size, device_id)` as present on the remote.
/// Every other key keeps its state; set semantics are preserved.
pub fn add_skipped_file(store: &mut CredentialStore, filename: &str, size: i64, device_id: &str)
    requires
        spec_skipped_wf(*old(store)),
    ensures
        spec_skipped_wf(*final(store)),
        spec_is_skipped(*final(store), filename@, size as int, device_id@),
        forall|f: Seq<char>, s: int, d: Seq<char>|
            (f, s, d) != (filename@, size as int, device_id@) ==> #[trigger] spec_is_skipped(
                *final(store),
                f,
                s,
                d,
            ) == spec_is_skipped(*old(store), f, s, d),
        final(store).user_config == old(store).user_config,
        final(store).oauth_config == old(store).oauth_config,
{
    if is_file_skipped(store, filename, size, device_id) {
        return ;
    }
    let ghost pre = *store;
    let mut v: Vec<SkippedFile> = match load_skipped_files(store) {
        Some(v) => v,
        None => Vec::new(),
    };
    let ghost base = v@;
    let record = SkippedFile::new(filename.to_owned(), size, device_id.to_owned());
    assert(record.key() == (filename@, size as int, device_id@));
    v.push(record);
    save_skipped_files(store, v);
    proof {
        let w = store.skipped_files->0@;
        assert(w[base.len() as int].key() == (filename@, size as int, device_id@));
        assert forall|f: Seq<char>, s: int, d: Seq<char>|
            (f, s, d) != (filename@, size as int, device_id@) implies #[trigger] spec_is_skipped(
            *store,
            f,
            s,
            d,
        ) == spec_is_skipped(pre, f, s, d) by {
            if spec_is_skipped(*store, f, s, d) {
                let i = choose|i: int| 0 <= i < w.len() && w[i].key() == (f, s, d);
                assert(i < base.len());
                match pre.skipped_files {
                    Some(pv) => {
                        assert(pv@[i].key() == (f, s, d));
                    },
                    None => {
                        assert(base.len() == 0);
                    },
                }
            }
            if spec_is_skipped(pre, f, s, d) {
                let pv = pre.skipped_files->0@;
                let i = choose|i: int| 0 <= i < pv.len() && pv[i].key() == (f, s, d);
                assert(w[i].key() == (f, s, d));
            }
        }
        assert forall|i: int, j: int| 0 <= i < j < w.len() implies (#[trigger] w[i].key()) != (
        #[trigger] w[j].key()) by {
            if j < base.len() {
                match pre.skipped_files {
                    Some(pv) => {
                        assert(pv@[i].key() == w[i].key());
                        assert(pv@[j].key() == w[j].key());
                    },
                    None => {},
                }
            } else {
                assert(w[j].key() == (filename@, size as int, device_id@));
                if w[i].key() == w[j].key() {
                    match pre.skipped_files {
                        Some(pv) => {
                            assert(pv@[i].key() == (filename@, size as int, device_id@));
                            assert(spec_is_skipped(pre, filename@, size as int, device_id@));
                        },
                        None => {
                            assert(base.len() == 0);
                        },
                    }
                }
            }
        }
    }
}

/// Remove the entire dedup-cache record: afterwards no key is skipped.
pub fn clear_skipped_files(store: &mut CredentialStore)
    ensures
        final(store).skipped_files is None,
        forall|f: Seq<char>, s: int, d: Seq<char>| !spec_is_skipped(*final(store), f, s, d),
        spec_skipped_wf(*final(store)),
        final(store).user_config == old(store).user_config,
        final(store).oauth_config == old(store).oauth_config,
{
    store.skipped_files = None;
}

/// The stored OAuth login configuration, if present.
pub fn get_oauth_config(store: &CredentialStore) -> (r: Option<OAuthConfig>)
    ensures
        match store.oauth_config {
            None => r is None,
            Some(c) => {
                &&& r is Some
                &&& r->0.client_id@ == c.client_id@
                &&& r->0.env == c.env
                &&& r->0.scope == c.scope
            },
        },
{
    match &store.oauth_config {
        None => None,
        Some(c) => Some(
            OAuthConfig { client_id: c.client_id.clone(), env: c.env, scope: c.scope },
        ),
    }
}

/// Store `auth_data` as the OAuth login configuration, overwriting any
/// previous one.
pub fn save_auth_data(store: &mut CredentialStore, auth_data: &OAuthConfig)
    ensures
        final(store).oauth_config is Some,
        final(store).oauth_config->0.client_id@ == auth_data.client_id@,
        final(store).oauth_config->0.env == auth_data.env,
        final(store).oauth_config->0.scope == auth_data.scope,
        final(store).user_config == old(store).user_config,
        final(store).skipped_files == old(store).skipped_files,
{
    store.oauth_config = Some(
        OAuthConfig {
            client_id: auth_data.client_id.clone(),
            env: auth_data.env,
            scope: auth_data.scope,
        },
    );
}

/// Remove the stored OAuth login configuration.
pub fn clear_auth_data(store: &mut CredentialStore)
    ensures
        final(store).oauth_config is None,
        final(store).user_config == old(store).user_config,
        final(store).skipped_files == old(store).skipped_files,
{
    store.oauth_config = None;
}

/// The stored user record, if present.
pub fn get_user_config(store: &CredentialStore) -> (r: Option<UserConfig>)
    ensures
        match store.user_config {
            None => r is None,
            Some(c) => {
                &&& r is Some
                &&& r->0.access_token@ == c.access_token@
                &&& r->0.token_type@ == c.token_type@
                &&& r->0.api_config.env == c.api_config.env
                &&& r->0.api_config.spec_host_override() == c.api_config.spec_host_override()
            },
        },
{
    match &store.user_config {
        None => None,
        Some(c) => Some(
            UserConfig {
                access_token: c.access_token.clone(),
                token_type: c.token_type.clone(),
                api_config: c.api_config.duplicate(),
            },
        ),
    }
}

/// Store the user record for a freshly exchanged token, with the default API
/// configuration, overwriting any previous record.
pub fn save_user_config(store: &mut CredentialStore, access_token: String, token_type: String)
    ensures
        final(store).user_config is Some,
        final(store).user_config->0.access_token == access_token,
        final(store).user_config->0.token_type == token_type,
        final(store).user_config->0.api_config.env == crate::config::ApiEnv::Local,
        final(store).user_config->0.api_config.spec_host_override() == Some("http://localhost:8080"@),
        final(store).oauth_config == old(store).oauth_config,
        final(store).skipped_files == old(store).skipped_files,
{
    store.user_config = Some(
        UserConfig { access_token, token_type, api_config: ApiConfig::default() },
    );
}

/// Remove the stored user record.
pub fn clear_user_config(store: &mut CredentialStore)
    ensures
        final(store).user_config is None,
        final(store).oauth_config == old(store).oauth_config,
        final(store).skipped_files == old(store).skipped_files,
{
    store.user_config = None;
}

} // verus!
