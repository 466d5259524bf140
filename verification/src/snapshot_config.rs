//! Where a snapshot is fetched from: the sources a user can name, the defaults of each network, and
//! what is made of them.
use crate::environment::Environment;
use crate::text::decimal_text;
use crate::urls::Url;
use std::path::PathBuf;
use vstd::prelude::*;

verus! {

/// `std::path::PathBuf`, carried along and never looked into.
#[verifier::external_type_specification]
#[verifier::external_body]
pub struct ExPathBuf(std::path::PathBuf);

/// `PathBuf::clone`, which duplicates the path.
pub assume_specification[ <std::path::PathBuf as Clone>::clone ](
    path: &std::path::PathBuf,
) -> (copy: std::path::PathBuf)
    ensures
        copy == *path,
;

/// The network that a snapshot belongs to.
#[derive(Debug, Clone, Copy, PartialEq, Eq)]
pub enum Chain {
    Mainnet,
    Testnet,
    Unknown,
}

/// The sources that a user named. On the command line they exclude one another.
#[derive(Debug)]
pub struct SnapshotSourceArgs {
    /// The bucket on AWS S3. The environment says how it is reached: `AWS_ACCESS_KEY_ID`,
    /// `AWS_SECRET_ACCESS_KEY`, `AWS_DEFAULT_REGION` and `AWS_SNAPSHOT_ENDPOINT`.
    pub s3: Option<String>,
    /// The bucket on Google Cloud Storage. The environment says how it is reached:
    /// `GCS_SNAPSHOT_SERVICE_ACCOUNT_FILE_PATH` and `GCS_SNAPSHOT_SERVICE_ACCOUNT_PROJECT_ID`.
    pub gcs: Option<String>,
    /// The container on Azure Blob Storage. The environment says how it is reached:
    /// `AZURE_SNAPSHOT_STORAGE_ACCOUNT` and `AZURE_SNAPSHOT_STORAGE_ACCESS_KEY`.
    pub azure: Option<String>,
    /// A generic HTTP endpoint.
    pub http: Option<Url>,
    /// The snapshot directory on the local file system.
    pub snapshot_dir: Option<PathBuf>,
}

/// What `SnapshotSourceArgs` stands for.
pub struct SourceView {
    pub s3: Option<Seq<char>>,
    pub gcs: Option<Seq<char>>,
    pub azure: Option<Seq<char>>,
    pub http: Option<Seq<char>>,
    pub snapshot_dir: Option<PathBuf>,
}

impl View for SnapshotSourceArgs {
    type V = SourceView;

    open spec fn view(&self) -> SourceView {
        SourceView {
            s3: crate::text::view_of(self.s3),
            gcs: crate::text::view_of(self.gcs),
            azure: crate::text::view_of(self.azure),
            http: crate::text::view_of(self.http),
            snapshot_dir: self.snapshot_dir,
        }
    }
}

impl Clone for SnapshotSourceArgs {
    fn clone(&self) -> (copy: Self)
        ensures
            copy@ == self@,
    {
        SnapshotSourceArgs {
            s3: self.s3.clone(),
            gcs: self.gcs.clone(),
            azure: self.azure.clone(),
            http: match &self.http {
                Some(url) => Some(url.clone()),
                None => None,
            },
            snapshot_dir: self.snapshot_dir.clone(),
        }
    }
}

impl SourceView {
    /// Some source is named.
    pub open spec fn has_source(self) -> bool {
        ||| self.s3 is Some
        ||| self.gcs is Some
        ||| self.azure is Some
        ||| self.http is Some
        ||| self.snapshot_dir is Some
    }

    /// The number of sources named.
    pub open spec fn sources(self) -> int {
        (if self.s3 is Some { 1int } else { 0 }) + (if self.gcs is Some { 1int } else { 0 }) + (
        if self.azure is Some { 1int } else { 0 }) + (if self.http is Some { 1int } else { 0 }) + (
        if self.snapshot_dir is Some { 1int } else { 0 })
    }

    /// The same sources with the given endpoint, where there is one, as the HTTP endpoint.
    pub open spec fn with_url(self, url: Option<Seq<char>>) -> SourceView {
        match url {
            Some(url) => SourceView { http: Some(url), ..self },
            None => self,
        }
    }

    /// The same sources with the given bucket, where there is one, as the bucket on S3.
    pub open spec fn with_bucket(self, bucket: Option<Seq<char>>) -> SourceView {
        match bucket {
            Some(bucket) => SourceView { s3: Some(bucket), ..self },
            None => self,
        }
    }

    /// What is used for an unsigned request: the endpoint, unless a source is named.
    pub open spec fn or_url(self, no_sign_request: bool, url: Option<Seq<char>>) -> SourceView {
        if self.has_source() || !no_sign_request {
            self
        } else {
            self.with_url(url)
        }
    }

    /// What is used for a database snapshot: the bucket, unless a source is named.
    pub open spec fn or_bucket(self, bucket: Option<Seq<char>>) -> SourceView {
        if self.has_source() {
            self
        } else {
            self.with_bucket(bucket)
        }
    }

    /// What is used for a formal snapshot, unless a source is named: the endpoint for an unsigned
    /// request, the bucket for a signed one.
    pub open spec fn or_url_or_bucket(
        self,
        no_sign_request: bool,
        url: Option<Seq<char>>,
        bucket: Option<Seq<char>>,
    ) -> SourceView {
        if self.has_source() {
            self
        } else if no_sign_request {
            self.with_url(url)
        } else {
            self.with_bucket(bucket)
        }
    }
}

/// The endpoint from which anyone can fetch the formal snapshots of a network.
pub open spec fn public_endpoint(network: Chain) -> Option<Seq<char>> {
    match network {
        Chain::Mainnet => Some("https://formal-snapshot.mainnet.sui.io"@),
        Chain::Testnet => Some("https://formal-snapshot.testnet.sui.io"@),
        Chain::Unknown => None,
    }
}

/// That endpoint as a URL is written, with a slash at the end.
pub open spec fn public_url(network: Chain) -> Option<Seq<char>> {
    match public_endpoint(network) {
        Some(text) => Some(text.push('/')),
        None => None,
    }
}

/// Each known network has its own public endpoint; an unknown one has none.
pub proof fn public_urls(network: Chain)
    ensures
        network == Chain::Mainnet ==> public_url(network) == Some(
            "https://formal-snapshot.mainnet.sui.io/"@,
        ),
        network == Chain::Testnet ==> public_url(network) == Some(
            "https://formal-snapshot.testnet.sui.io/"@,
        ),
        network == Chain::Unknown ==> public_url(network) is None,
{
    reveal_strlit("https://formal-snapshot.mainnet.sui.io");
    reveal_strlit("https://formal-snapshot.testnet.sui.io");
    reveal_strlit("https://formal-snapshot.mainnet.sui.io/");
    reveal_strlit("https://formal-snapshot.testnet.sui.io/");
    assert("https://formal-snapshot.mainnet.sui.io"@.push('/')
        =~= "https://formal-snapshot.mainnet.sui.io/"@);
    assert("https://formal-snapshot.testnet.sui.io"@.push('/')
        =~= "https://formal-snapshot.testnet.sui.io/"@);
}

/// A value, or what stands in for it.
pub open spec fn or_else(value: Option<Seq<char>>, default: Seq<char>) -> Seq<char> {
    match value {
        Some(value) => value,
        None => default,
    }
}

/// The bucket of a network's database snapshots.
pub open spec fn db_bucket(network: Chain, env: Seq<(Seq<char>, Seq<char>)>) -> Option<
    Seq<char>,
> {
    match network {
        Chain::Mainnet => Some(
            or_else(
                crate::environment::variable(env, "MAINNET_DB_SIGNED_BUCKET"@),
                "mysten-mainnet-snapshots"@,
            ),
        ),
        Chain::Testnet => Some(
            or_else(
                crate::environment::variable(env, "TESTNET_DB_SIGNED_BUCKET"@),
                "mysten-testnet-snapshots"@,
            ),
        ),
        Chain::Unknown => None,
    }
}

/// The bucket of a network's formal snapshots.
pub open spec fn formal_bucket(network: Chain, env: Seq<(Seq<char>, Seq<char>)>) -> Option<
    Seq<char>,
> {
    match network {
        Chain::Mainnet => Some(
            or_else(
                crate::environment::variable(env, "MAINNET_FORMAL_SIGNED_BUCKET"@),
                "mysten-mainnet-formal"@,
            ),
        ),
        Chain::Testnet => Some(
            or_else(
                crate::environment::variable(env, "TESTNET_FORMAL_SIGNED_BUCKET"@),
                "mysten-testnet-formal"@,
            ),
        ),
        Chain::Unknown => None,
    }
}

/// The storage backend that a snapshot is read from.
#[derive(Debug)]
pub enum StorageBackend {
    S3 {
        bucket: String,
        access_key_id: Option<String>,
        secret_access_key: Option<String>,
        region: Option<String>,
        endpoint: Option<String>,
    },
    Gcs { bucket: String, service_account: Option<String>, project_id: Option<String> },
    Azure { container: String, account: Option<String>, access_key: Option<String> },
    Http { url: Url },
    Local { path: PathBuf },
}

/// What `StorageBackend` stands for.
pub enum BackendView {
    S3 {
        bucket: Seq<char>,
        access_key_id: Option<Seq<char>>,
        secret_access_key: Option<Seq<char>>,
        region: Option<Seq<char>>,
        endpoint: Option<Seq<char>>,
    },
    Gcs { bucket: Seq<char>, service_account: Option<Seq<char>>, project_id: Option<Seq<char>> },
    Azure { container: Seq<char>, account: Option<Seq<char>>, access_key: Option<Seq<char>> },
    Http { url: Seq<char> },
    Local { path: PathBuf },
}

impl View for StorageBackend {
    type V = BackendView;

    open spec fn view(&self) -> BackendView {
        match self {
            StorageBackend::S3 {
                bucket,
                access_key_id,
                secret_access_key,
                region,
                endpoint,
            } => BackendView::S3 {
                bucket: bucket@,
                access_key_id: crate::text::view_of(*access_key_id),
                secret_access_key: crate::text::view_of(*secret_access_key),
                region: crate::text::view_of(*region),
                endpoint: crate::text::view_of(*endpoint),
            },
            StorageBackend::Gcs { bucket, service_account, project_id } => BackendView::Gcs {
                bucket: bucket@,
                service_account: crate::text::view_of(*service_account),
                project_id: crate::text::view_of(*project_id),
            },
            StorageBackend::Azure { container, account, access_key } => BackendView::Azure {
                container: container@,
                account: crate::text::view_of(*account),
                access_key: crate::text::view_of(*access_key),
            },
            StorageBackend::Http { url } => BackendView::Http { url: url@ },
            StorageBackend::Local { path } => BackendView::Local { path: *path },
        }
    }
}

impl SourceView {
    /// The backend for these sources, and what the environment says of reaching it. Of several
    /// sources, the first of S3, GCS, Azure, HTTP and the local directory counts.
    pub open spec fn backend(self, env: Seq<(Seq<char>, Seq<char>)>) -> Option<BackendView> {
        if self.s3 is Some {
            Some(
                BackendView::S3 {
                    bucket: self.s3->0,
                    access_key_id: crate::environment::variable(env, "AWS_ACCESS_KEY_ID"@),
                    secret_access_key: crate::environment::variable(env, "AWS_SECRET_ACCESS_KEY"@),
                    region: crate::environment::variable(env, "AWS_DEFAULT_REGION"@),
                    endpoint: crate::environment::variable(env, "AWS_SNAPSHOT_ENDPOINT"@),
                },
            )
        } else if self.gcs is Some {
            Some(
                BackendView::Gcs {
                    bucket: self.gcs->0,
                    service_account: crate::environment::variable(
                        env,
                        "GCS_SNAPSHOT_SERVICE_ACCOUNT_FILE_PATH"@,
                    ),
                    project_id: crate::environment::variable(
                        env,
                        "GCS_SNAPSHOT_SERVICE_ACCOUNT_PROJECT_ID"@,
                    ),
                },
            )
        } else if self.azure is Some {
            Some(
                BackendView::Azure {
                    container: self.azure->0,
                    account: crate::environment::variable(env, "AZURE_SNAPSHOT_STORAGE_ACCOUNT"@),
                    access_key: crate::environment::variable(
                        env,
                        "AZURE_SNAPSHOT_STORAGE_ACCESS_KEY"@,
                    ),
                },
            )
        } else if self.http is Some {
            Some(BackendView::Http { url: self.http->0 })
        } else if self.snapshot_dir is Some {
            Some(BackendView::Local { path: self.snapshot_dir->0 })
        } else {
            None
        }
    }
}

/// Why there is nothing to fetch a snapshot from.
#[derive(Debug, Clone, Copy, PartialEq, Eq)]
pub enum SnapshotSourceError {
    /// A backend was asked for and no source named.
    NotProvided,
    /// A store configuration was asked for and no source named.
    NotConfigured,
}

/// The words for an error.
pub open spec fn error_text(error: SnapshotSourceError) -> Seq<char> {
    match error {
        SnapshotSourceError::NotProvided => "No snapshot source provided"@,
        SnapshotSourceError::NotConfigured => "No snapshot source configured"@,
    }
}

impl SnapshotSourceError {
    /// The words for the error.
    pub fn message(&self) -> (text: String)
        ensures
            text@ == error_text(*self),
            *self == SnapshotSourceError::NotProvided ==> text@ == "No snapshot source provided"@,
            *self == SnapshotSourceError::NotConfigured ==> text@ == "No snapshot source configured"@,
    {
        match self {
            SnapshotSourceError::NotProvided => "No snapshot source provided".to_owned(),
            SnapshotSourceError::NotConfigured => "No snapshot source configured".to_owned(),
        }
    }
}

/// The kind of object store in a store configuration.
#[derive(Debug, Clone, Copy, PartialEq, Eq)]
pub enum ObjectStoreType {
    S3,
    GCS,
    Azure,
    File,
}

/// The configuration of an object store.
#[derive(Debug)]
pub struct ObjectStoreConfig {
    pub object_store: Option<ObjectStoreType>,
    pub directory: Option<PathBuf>,
    pub bucket: Option<String>,
    pub aws_access_key_id: Option<String>,
    pub aws_secret_access_key: Option<String>,
    pub aws_region: Option<String>,
    pub aws_endpoint: Option<String>,
    pub aws_virtual_hosted_style_request: bool,
    pub google_service_account: Option<String>,
    pub google_project_id: Option<String>,
    pub azure_storage_account: Option<String>,
    pub azure_storage_access_key: Option<String>,
    pub object_store_connection_limit: usize,
    pub no_sign_request: bool,
}

/// What `ObjectStoreConfig` stands for.
pub struct StoreView {
    pub object_store: Option<ObjectStoreType>,
    pub directory: Option<PathBuf>,
    pub bucket: Option<Seq<char>>,
    pub aws_access_key_id: Option<Seq<char>>,
    pub aws_secret_access_key: Option<Seq<char>>,
    pub aws_region: Option<Seq<char>>,
    pub aws_endpoint: Option<Seq<char>>,
    pub aws_virtual_hosted_style_request: bool,
    pub google_service_account: Option<Seq<char>>,
    pub google_project_id: Option<Seq<char>>,
    pub azure_storage_account: Option<Seq<char>>,
    pub azure_storage_access_key: Option<Seq<char>>,
    pub object_store_connection_limit: int,
    pub no_sign_request: bool,
}

impl View for ObjectStoreConfig {
    type V = StoreView;

    open spec fn view(&self) -> StoreView {
        StoreView {
            object_store: self.object_store,
            directory: self.directory,
            bucket: crate::text::view_of(self.bucket),
            aws_access_key_id: crate::text::view_of(self.aws_access_key_id),
            aws_secret_access_key: crate::text::view_of(self.aws_secret_access_key),
            aws_region: crate::text::view_of(self.aws_region),
            aws_endpoint: crate::text::view_of(self.aws_endpoint),
            aws_virtual_hosted_style_request: self.aws_virtual_hosted_style_request,
            google_service_account: crate::text::view_of(self.google_service_account),
            google_project_id: crate::text::view_of(self.google_project_id),
            azure_storage_account: crate::text::view_of(self.azure_storage_account),
            azure_storage_access_key: crate::text::view_of(self.azure_storage_access_key),
            object_store_connection_limit: self.object_store_connection_limit as int,
            no_sign_request: self.no_sign_request,
        }
    }
}

/// A store configuration with nothing set.
pub open spec fn unset_store() -> StoreView {
    StoreView {
        object_store: None,
        directory: None,
        bucket: None,
        aws_access_key_id: None,
        aws_secret_access_key: None,
        aws_region: None,
        aws_endpoint: None,
        aws_virtual_hosted_style_request: false,
        google_service_account: None,
        google_project_id: None,
        azure_storage_account: None,
        azure_storage_access_key: None,
        object_store_connection_limit: 0,
        no_sign_request: false,
    }
}

impl Default for ObjectStoreConfig {
    fn default() -> (config: Self)
        ensures
            config@ == unset_store(),
    {
        ObjectStoreConfig {
            object_store: None,
            directory: None,
            bucket: None,
            aws_access_key_id: None,
            aws_secret_access_key: None,
            aws_region: None,
            aws_endpoint: None,
            aws_virtual_hosted_style_request: false,
            google_service_account: None,
            google_project_id: None,
            azure_storage_account: None,
            azure_storage_access_key: None,
            object_store_connection_limit: 0,
            no_sign_request: false,
        }
    }
}

/// The number of connections that a remote store is given.
pub const CONNECTION_LIMIT: usize = 200;

impl SourceView {
    /// The store configuration for these sources. Of several, the first of S3, GCS, Azure, the
    /// local directory and HTTP counts.
    pub open spec fn store(self, env: Seq<(Seq<char>, Seq<char>)>) -> Option<StoreView> {
        if self.s3 is Some {
            Some(
                StoreView {
                    object_store: Some(ObjectStoreType::S3),
                    bucket: self.s3,
                    aws_access_key_id: crate::environment::variable(
                        env,
                        "AWS_ACCESS_KEY_ID"@,
                    ),
                    aws_secret_access_key: crate::environment::variable(
                        env,
                        "AWS_SECRET_ACCESS_KEY"@,
                    ),
                    aws_region: crate::environment::variable(env, "AWS_DEFAULT_REGION"@),
                    aws_endpoint: crate::environment::variable(env, "AWS_SNAPSHOT_ENDPOINT"@),
                    aws_virtual_hosted_style_request: crate::environment::variable(
                        env,
                        "AWS_SNAPSHOT_VIRTUAL_HOSTED_REQUESTS"@,
                    ) == Some("true"@),
                    object_store_connection_limit: CONNECTION_LIMIT as int,
                    ..unset_store()
                },
            )
        } else if self.gcs is Some {
            Some(
                StoreView {
                    object_store: Some(ObjectStoreType::GCS),
                    bucket: self.gcs,
                    google_service_account: crate::environment::variable(
                        env,
                        "GCS_SNAPSHOT_SERVICE_ACCOUNT_FILE_PATH"@,
                    ),
                    google_project_id: crate::environment::variable(
                        env,
                        "GCS_SNAPSHOT_SERVICE_ACCOUNT_PROJECT_ID"@,
                    ),
                    object_store_connection_limit: CONNECTION_LIMIT as int,
                    ..unset_store()
                },
            )
        } else if self.azure is Some {
            Some(
                StoreView {
                    object_store: Some(ObjectStoreType::Azure),
                    bucket: self.azure,
                    azure_storage_account: crate::environment::variable(
                        env,
                        "AZURE_SNAPSHOT_STORAGE_ACCOUNT"@,
                    ),
                    azure_storage_access_key: crate::environment::variable(
                        env,
                        "AZURE_SNAPSHOT_STORAGE_ACCESS_KEY"@,
                    ),
                    object_store_connection_limit: CONNECTION_LIMIT as int,
                    ..unset_store()
                },
            )
        } else if self.snapshot_dir is Some {
            Some(
                StoreView {
                    object_store: Some(ObjectStoreType::File),
                    directory: self.snapshot_dir,
                    ..unset_store()
                },
            )
        } else if self.http is Some {
            Some(
                StoreView {
                    object_store: Some(ObjectStoreType::S3),
                    aws_endpoint: self.http,
                    aws_virtual_hosted_style_request: true,
                    object_store_connection_limit: CONNECTION_LIMIT as int,
                    no_sign_request: true,
                    ..unset_store()
                },
            )
        } else {
            None
        }
    }
}

/// A variable that says `true`, in just these letters.
fn is_true(value: &Option<String>) -> (yes: bool)
    ensures
        yes == (crate::text::view_of(*value) == Some("true"@)),
{
    match value {
        Some(value) => *value == "true".to_owned(),
        None => false,
    }
}

fn value_or(value: Option<String>, default: &str) -> (text: String)
    ensures
        text@ == or_else(crate::text::view_of(value), default@),
{
    match value {
        Some(value) => value,
        None => default.to_owned(),
    }
}

/// The public endpoint of a network as a URL.
pub fn public_snapshot_url(network: Chain) -> (url: Option<Url>)
    ensures
        crate::text::view_of(url) == public_url(network),
        network == Chain::Mainnet ==> url is Some && url->0@
            == "https://formal-snapshot.mainnet.sui.io/"@,
        network == Chain::Testnet ==> url is Some && url->0@
            == "https://formal-snapshot.testnet.sui.io/"@,
        network == Chain::Unknown ==> url is None,
{
    proof {
        public_urls(network);
    }
    proof {
        reveal_strlit("https://");
        reveal_strlit("https://formal-snapshot.mainnet.sui.io");
        reveal_strlit("https://formal-snapshot.testnet.sui.io");
        let main = "https://formal-snapshot.mainnet.sui.io"@;
        let test = "https://formal-snapshot.testnet.sui.io"@;
        assert(main.take(8) =~= "https://"@);
        assert(test.take(8) =~= "https://"@);
        assert(crate::urls::is_plain_host(main.skip(8)));
        assert(crate::urls::is_plain_host(test.skip(8)));
    }
    match network {
        Chain::Mainnet => Url::parse("https://formal-snapshot.mainnet.sui.io"),
        Chain::Testnet => Url::parse("https://formal-snapshot.testnet.sui.io"),
        Chain::Unknown => None,
    }
}

impl SnapshotSourceArgs {
    /// Whether some source is named.
    pub fn has_source(&self) -> (named: bool)
        ensures
            named == self@.has_source(),
            named <==> self.s3 is Some || self.gcs is Some || self.azure is Some || self.http is Some
                || self.snapshot_dir is Some,
    {
        self.s3.is_some() || self.gcs.is_some() || self.azure.is_some() || self.http.is_some()
            || self.snapshot_dir.is_some()
    }

    /// The backend to read the snapshot from.
    pub fn build_storage(&self, env: &Environment) -> (backend: Result<
        StorageBackend,
        SnapshotSourceError,
    >)
        ensures
            match backend {
                Ok(backend) => self@.backend(env@) == Some(backend@),
                Err(error) => self@.backend(env@) is None && error
                    == SnapshotSourceError::NotProvided,
            },
            match backend {
                Ok(StorageBackend::S3 {
                    bucket,
                    access_key_id,
                    secret_access_key,
                    region,
                    endpoint,
                }) => {
                    &&& self.s3 is Some
                    &&& bucket@ == self.s3->0@
                    &&& crate::text::view_of(access_key_id) == crate::environment::variable(env@, "AWS_ACCESS_KEY_ID"@)
                    &&& crate::text::view_of(secret_access_key) == crate::environment::variable(env@, "AWS_SECRET_ACCESS_KEY"@)
                    &&& crate::text::view_of(region) == crate::environment::variable(env@, "AWS_DEFAULT_REGION"@)
                    &&& crate::text::view_of(endpoint) == crate::environment::variable(env@, "AWS_SNAPSHOT_ENDPOINT"@)
                },
                Ok(StorageBackend::Gcs { bucket, service_account, project_id }) => {
                    &&& self.s3 is None
                    &&& self.gcs is Some
                    &&& bucket@ == self.gcs->0@
                    &&& crate::text::view_of(service_account) == crate::environment::variable(env@, "GCS_SNAPSHOT_SERVICE_ACCOUNT_FILE_PATH"@)
                    &&& crate::text::view_of(project_id) == crate::environment::variable(env@, "GCS_SNAPSHOT_SERVICE_ACCOUNT_PROJECT_ID"@)
                },
                Ok(StorageBackend::Azure { container, account, access_key }) => {
                    &&& self.s3 is None
                    &&& self.gcs is None
                    &&& self.azure is Some
                    &&& container@ == self.azure->0@
                    &&& crate::text::view_of(account) == crate::environment::variable(env@, "AZURE_SNAPSHOT_STORAGE_ACCOUNT"@)
                    &&& crate::text::view_of(access_key) == crate::environment::variable(env@, "AZURE_SNAPSHOT_STORAGE_ACCESS_KEY"@)
                },
                Ok(StorageBackend::Http { url }) => {
                    &&& self.s3 is None
                    &&& self.gcs is None
                    &&& self.azure is None
                    &&& self.http is Some
                    &&& url@ == self.http->0@
                },
                Ok(StorageBackend::Local { path }) => {
                    &&& self.s3 is None
                    &&& self.gcs is None
                    &&& self.azure is None
                    &&& self.http is None
                    &&& self.snapshot_dir == Some(path)
                },
                Err(error) => {
                    &&& self.s3 is None
                    &&& self.gcs is None
                    &&& self.azure is None
                    &&& self.http is None
                    &&& self.snapshot_dir is None
                    &&& error == SnapshotSourceError::NotProvided
                },
            },
    {
        if let Some(bucket) = &self.s3 {
            Ok(
                StorageBackend::S3 {
                    bucket: bucket.clone(),
                    access_key_id: env.var("AWS_ACCESS_KEY_ID"),
                    secret_access_key: env.var("AWS_SECRET_ACCESS_KEY"),
                    region: env.var("AWS_DEFAULT_REGION"),
                    endpoint: env.var("AWS_SNAPSHOT_ENDPOINT"),
                },
            )
        } else if let Some(bucket) = &self.gcs {
            Ok(
                StorageBackend::Gcs {
                    bucket: bucket.clone(),
                    service_account: env.var("GCS_SNAPSHOT_SERVICE_ACCOUNT_FILE_PATH"),
                    project_id: env.var("GCS_SNAPSHOT_SERVICE_ACCOUNT_PROJECT_ID"),
                },
            )
        } else if let Some(container) = &self.azure {
            Ok(
                StorageBackend::Azure {
                    container: container.clone(),
                    account: env.var("AZURE_SNAPSHOT_STORAGE_ACCOUNT"),
                    access_key: env.var("AZURE_SNAPSHOT_STORAGE_ACCESS_KEY"),
                },
            )
        } else if let Some(url) = &self.http {
            Ok(StorageBackend::Http { url: url.clone() })
        } else if let Some(path) = &self.snapshot_dir {
            Ok(StorageBackend::Local { path: path.clone() })
        } else {
            Err(SnapshotSourceError::NotProvided)
        }
    }

    /// Takes an endpoint for an unsigned request, unless a source is named.
    pub fn with_default_url(self, no_sign_request: bool, url: Option<Url>) -> (args: Self)
        ensures
            args@ == self@.or_url(no_sign_request, crate::text::view_of(url)),
            self.s3 is Some || self.gcs is Some || self.azure is Some || self.http is Some
                || self.snapshot_dir is Some ==> args == self,
            !no_sign_request || url is None ==> args == self,
            self.s3 is None && self.gcs is None && self.azure is None && self.http is None
                && self.snapshot_dir is None && no_sign_request && url is Some ==> {
                &&& args.http == url
                &&& args.s3 is None
                &&& args.gcs is None
                &&& args.azure is None
                &&& args.snapshot_dir is None
            },
    {
        if self.has_source() {
            return self;
        }
        if no_sign_request {
            if let Some(url) = url {
                SnapshotSourceArgs { http: Some(url), ..self }
            } else {
                self
            }
        } else {
            self
        }
    }

    /// Takes the public endpoint of the network for an unsigned request, unless a source is named.
    pub fn with_defaults(self, network: Chain, no_sign_request: bool) -> (args: Self)
        ensures
            args@ == self@.or_url(no_sign_request, public_url(network)),
            self.s3 is Some || self.gcs is Some || self.azure is Some || self.http is Some
                || self.snapshot_dir is Some ==> args == self,
            !no_sign_request || network == Chain::Unknown ==> args == self,
            self.s3 is None && self.gcs is None && self.azure is None && self.http is None
                && self.snapshot_dir is None && no_sign_request && network == Chain::Mainnet ==> {
                &&& args.http is Some
                &&& args.http->0@ == "https://formal-snapshot.mainnet.sui.io/"@
                &&& args.s3 is None
                &&& args.gcs is None
                &&& args.azure is None
                &&& args.snapshot_dir is None
            },
            self.s3 is None && self.gcs is None && self.azure is None && self.http is None
                && self.snapshot_dir is None && no_sign_request && network == Chain::Testnet ==> {
                &&& args.http is Some
                &&& args.http->0@ == "https://formal-snapshot.testnet.sui.io/"@
                &&& args.s3 is None
                &&& args.gcs is None
                &&& args.azure is None
                &&& args.snapshot_dir is None
            },
    {
        proof {
            public_urls(network);
        }
        if self.has_source() {
            return self;
        }
        self.with_default_url(no_sign_request, public_snapshot_url(network))
    }

    /// Takes the bucket of the network's database snapshots, unless a source is named. The
    /// environment can name another bucket.
    pub fn with_db_defaults(self, network: Chain, env: &Environment) -> (args: Self)
        ensures
            args@ == self@.or_bucket(db_bucket(network, env@)),
            self.s3 is Some || self.gcs is Some || self.azure is Some || self.http is Some
                || self.snapshot_dir is Some ==> args == self,
            network == Chain::Unknown ==> args == self,
            self.s3 is None && self.gcs is None && self.azure is None && self.http is None
                && self.snapshot_dir is None && network == Chain::Mainnet ==> {
                &&& args.s3 is Some
                &&& args.s3->0@ == match crate::environment::variable(env@, "MAINNET_DB_SIGNED_BUCKET"@) {
                    Some(bucket) => bucket,
                    None => "mysten-mainnet-snapshots"@,
                }
                &&& args.gcs is None
                &&& args.azure is None
                &&& args.http is None
                &&& args.snapshot_dir is None
            },
            self.s3 is None && self.gcs is None && self.azure is None && self.http is None
                && self.snapshot_dir is None && network == Chain::Testnet ==> {
                &&& args.s3 is Some
                &&& args.s3->0@ == match crate::environment::variable(env@, "TESTNET_DB_SIGNED_BUCKET"@) {
                    Some(bucket) => bucket,
                    None => "mysten-testnet-snapshots"@,
                }
                &&& args.gcs is None
                &&& args.azure is None
                &&& args.http is None
                &&& args.snapshot_dir is None
            },
    {
        if self.has_source() {
            return self;
        }
        let bucket = match network {
            Chain::Mainnet => value_or(
                env.var("MAINNET_DB_SIGNED_BUCKET"),
                "mysten-mainnet-snapshots",
            ),
            Chain::Testnet => value_or(
                env.var("TESTNET_DB_SIGNED_BUCKET"),
                "mysten-testnet-snapshots",
            ),
            Chain::Unknown => return self,
        };
        SnapshotSourceArgs { s3: Some(bucket), ..self }
    }

    /// Takes, unless a source is named, the endpoint for an unsigned request and the bucket of the
    /// network's formal snapshots for a signed one. The environment can name another bucket.
    pub fn with_formal_url(
        self,
        network: Chain,
        no_sign_request: bool,
        url: Option<Url>,
        env: &Environment,
    ) -> (args: Self)
        ensures
            args@ == self@.or_url_or_bucket(
                no_sign_request,
                crate::text::view_of(url),
                formal_bucket(network, env@),
            ),
            self.s3 is Some || self.gcs is Some || self.azure is Some || self.http is Some
                || self.snapshot_dir is Some ==> args == self,
            network == Chain::Unknown && (!no_sign_request || url is None) ==> args == self,
            no_sign_request && url is None ==> args == self,
            self.s3 is None && self.gcs is None && self.azure is None && self.http is None
                && self.snapshot_dir is None && no_sign_request && url is Some ==> {
                &&& args.http == url
                &&& args.s3 is None
                &&& args.gcs is None
                &&& args.azure is None
                &&& args.snapshot_dir is None
            },
            self.s3 is None && self.gcs is None && self.azure is None && self.http is None
                && self.snapshot_dir is None && !no_sign_request && network == Chain::Mainnet ==> {
                &&& args.s3 is Some
                &&& args.s3->0@ == match crate::environment::variable(env@, "MAINNET_FORMAL_SIGNED_BUCKET"@) {
                    Some(bucket) => bucket,
                    None => "mysten-mainnet-formal"@,
                }
                &&& args.gcs is None
                &&& args.azure is None
                &&& args.http is None
                &&& args.snapshot_dir is None
            },
            self.s3 is None && self.gcs is None && self.azure is None && self.http is None
                && self.snapshot_dir is None && !no_sign_request && network == Chain::Testnet ==> {
                &&& args.s3 is Some
                &&& args.s3->0@ == match crate::environment::variable(env@, "TESTNET_FORMAL_SIGNED_BUCKET"@) {
                    Some(bucket) => bucket,
                    None => "mysten-testnet-formal"@,
                }
                &&& args.gcs is None
                &&& args.azure is None
                &&& args.http is None
                &&& args.snapshot_dir is None
            },
    {
        if self.has_source() {
            return self;
        }
        if no_sign_request {
            if let Some(url) = url {
                return SnapshotSourceArgs { http: Some(url), ..self };
            }
        }
        let bucket = match (network, no_sign_request) {
            (Chain::Mainnet, false) => value_or(
                env.var("MAINNET_FORMAL_SIGNED_BUCKET"),
                "mysten-mainnet-formal",
            ),
            (Chain::Testnet, false) => value_or(
                env.var("TESTNET_FORMAL_SIGNED_BUCKET"),
                "mysten-testnet-formal",
            ),
            _ => return self,
        };
        SnapshotSourceArgs { s3: Some(bucket), ..self }
    }

    /// Takes, unless a source is named, the public endpoint of the network for an unsigned request
    /// and the bucket of its formal snapshots for a signed one.
    pub fn with_formal_defaults(
        self,
        network: Chain,
        no_sign_request: bool,
        env: &Environment,
    ) -> (args: Self)
        ensures
            args@ == self@.or_url_or_bucket(
                no_sign_request,
                public_url(network),
                formal_bucket(network, env@),
            ),
            self.s3 is Some || self.gcs is Some || self.azure is Some || self.http is Some
                || self.snapshot_dir is Some ==> args == self,
            network == Chain::Unknown ==> args == self,
            self.s3 is None && self.gcs is None && self.azure is None && self.http is None
                && self.snapshot_dir is None && no_sign_request && network == Chain::Mainnet ==> {
                &&& args.http is Some
                &&& args.http->0@ == "https://formal-snapshot.mainnet.sui.io/"@
                &&& args.s3 is None
                &&& args.gcs is None
                &&& args.azure is None
                &&& args.snapshot_dir is None
            },
            self.s3 is None && self.gcs is None && self.azure is None && self.http is None
                && self.snapshot_dir is None && no_sign_request && network == Chain::Testnet ==> {
                &&& args.http is Some
                &&& args.http->0@ == "https://formal-snapshot.testnet.sui.io/"@
                &&& args.s3 is None
                &&& args.gcs is None
                &&& args.azure is None
                &&& args.snapshot_dir is None
            },
            self.s3 is None && self.gcs is None && self.azure is None && self.http is None
                && self.snapshot_dir is None && !no_sign_request && network == Chain::Mainnet ==> {
                &&& args.s3 is Some
                &&& args.s3->0@ == match crate::environment::variable(env@, "MAINNET_FORMAL_SIGNED_BUCKET"@) {
                    Some(bucket) => bucket,
                    None => "mysten-mainnet-formal"@,
                }
                &&& args.gcs is None
                &&& args.azure is None
                &&& args.http is None
                &&& args.snapshot_dir is None
            },
            self.s3 is None && self.gcs is None && self.azure is None && self.http is None
                && self.snapshot_dir is None && !no_sign_request && network == Chain::Testnet ==> {
                &&& args.s3 is Some
                &&& args.s3->0@ == match crate::environment::variable(env@, "TESTNET_FORMAL_SIGNED_BUCKET"@) {
                    Some(bucket) => bucket,
                    None => "mysten-testnet-formal"@,
                }
                &&& args.gcs is None
                &&& args.azure is None
                &&& args.http is None
                &&& args.snapshot_dir is None
            },
    {
        proof {
            public_urls(network);
        }
        if self.has_source() {
            return self;
        }
        let url = if no_sign_request {
            public_snapshot_url(network)
        } else {
            None
        };
        self.with_formal_url(network, no_sign_request, url, env)
    }

    /// The store configuration for these sources.
    pub fn to_object_store_config(&self, env: &Environment) -> (config: Result<
        ObjectStoreConfig,
        SnapshotSourceError,
    >)
        ensures
            match config {
                Ok(config) => self@.store(env@) == Some(config@),
                Err(error) => self@.store(env@) is None && error
                    == SnapshotSourceError::NotConfigured,
            },
            config is Err <==> self.s3 is None && self.gcs is None && self.azure is None
                && self.http is None && self.snapshot_dir is None,
            config is Err ==> config->Err_0 == SnapshotSourceError::NotConfigured,
            self.s3 is Some ==> {
                let c = config->Ok_0;
                {
                    &&& c.object_store == Some(ObjectStoreType::S3)
                    &&& c.directory == None::<PathBuf>
                    &&& crate::text::view_of(c.bucket) == Some(self.s3->0@)
                    &&& crate::text::view_of(c.aws_access_key_id) == crate::environment::variable(env@, "AWS_ACCESS_KEY_ID"@)
                    &&& crate::text::view_of(c.aws_secret_access_key) == crate::environment::variable(env@, "AWS_SECRET_ACCESS_KEY"@)
                    &&& crate::text::view_of(c.aws_region) == crate::environment::variable(env@, "AWS_DEFAULT_REGION"@)
                    &&& crate::text::view_of(c.aws_endpoint) == crate::environment::variable(env@, "AWS_SNAPSHOT_ENDPOINT"@)
                    &&& c.google_service_account is None
                    &&& c.google_project_id is None
                    &&& c.azure_storage_account is None
                    &&& c.azure_storage_access_key is None
                    &&& c.aws_virtual_hosted_style_request <==> crate::environment::variable(env@, "AWS_SNAPSHOT_VIRTUAL_HOSTED_REQUESTS"@) == Some("true"@)
                    &&& c.object_store_connection_limit == 200
                    &&& !c.no_sign_request
                }
            },
            self.s3 is None && self.gcs is Some ==> {
                let c = config->Ok_0;
                {
                    &&& c.object_store == Some(ObjectStoreType::GCS)
                    &&& c.directory == None::<PathBuf>
                    &&& crate::text::view_of(c.bucket) == Some(self.gcs->0@)
                    &&& c.aws_access_key_id is None
                    &&& c.aws_secret_access_key is None
                    &&& c.aws_region is None
                    &&& c.aws_endpoint is None
                    &&& crate::text::view_of(c.google_service_account) == crate::environment::variable(env@, "GCS_SNAPSHOT_SERVICE_ACCOUNT_FILE_PATH"@)
                    &&& crate::text::view_of(c.google_project_id) == crate::environment::variable(env@, "GCS_SNAPSHOT_SERVICE_ACCOUNT_PROJECT_ID"@)
                    &&& c.azure_storage_account is None
                    &&& c.azure_storage_access_key is None
                    &&& !c.aws_virtual_hosted_style_request
                    &&& c.object_store_connection_limit == 200
                    &&& !c.no_sign_request
                }
            },
            self.s3 is None && self.gcs is None && self.azure is Some ==> {
                let c = config->Ok_0;
                {
                    &&& c.object_store == Some(ObjectStoreType::Azure)
                    &&& c.directory == None::<PathBuf>
                    &&& crate::text::view_of(c.bucket) == Some(self.azure->0@)
                    &&& c.aws_access_key_id is None
                    &&& c.aws_secret_access_key is None
                    &&& c.aws_region is None
                    &&& c.aws_endpoint is None
                    &&& c.google_service_account is None
                    &&& c.google_project_id is None
                    &&& crate::text::view_of(c.azure_storage_account) == crate::environment::variable(env@, "AZURE_SNAPSHOT_STORAGE_ACCOUNT"@)
                    &&& crate::text::view_of(c.azure_storage_access_key) == crate::environment::variable(env@, "AZURE_SNAPSHOT_STORAGE_ACCESS_KEY"@)
                    &&& !c.aws_virtual_hosted_style_request
                    &&& c.object_store_connection_limit == 200
                    &&& !c.no_sign_request
                }
            },
            self.s3 is None && self.gcs is None && self.azure is None && self.snapshot_dir is Some
                ==> {
                let c = config->Ok_0;
                {
                    &&& c.object_store == Some(ObjectStoreType::File)
                    &&& c.directory == self.snapshot_dir
                    &&& c.bucket is None
                    &&& c.aws_access_key_id is None
                    &&& c.aws_secret_access_key is None
                    &&& c.aws_region is None
                    &&& c.aws_endpoint is None
                    &&& c.google_service_account is None
                    &&& c.google_project_id is None
                    &&& c.azure_storage_account is None
                    &&& c.azure_storage_access_key is None
                    &&& !c.aws_virtual_hosted_style_request
                    &&& c.object_store_connection_limit == 0
                    &&& !c.no_sign_request
                }
            },
            self.s3 is None && self.gcs is None && self.azure is None && self.snapshot_dir is None
                && self.http is Some ==> {
                let c = config->Ok_0;
                {
                    &&& c.object_store == Some(ObjectStoreType::S3)
                    &&& c.directory == None::<PathBuf>
                    &&& c.bucket is None
                    &&& c.aws_access_key_id is None
                    &&& c.aws_secret_access_key is None
                    &&& c.aws_region is None
                    &&& crate::text::view_of(c.aws_endpoint) == Some(self.http->0@)
                    &&& c.google_service_account is None
                    &&& c.google_project_id is None
                    &&& c.azure_storage_account is None
                    &&& c.azure_storage_access_key is None
                    &&& c.aws_virtual_hosted_style_request
                    &&& c.object_store_connection_limit == 200
                    &&& c.no_sign_request
                }
            },
    {
        if let Some(bucket) = &self.s3 {
            let hosted = env.var("AWS_SNAPSHOT_VIRTUAL_HOSTED_REQUESTS");
            Ok(
                ObjectStoreConfig {
                    object_store: Some(ObjectStoreType::S3),
                    bucket: Some(bucket.clone()),
                    aws_access_key_id: env.var("AWS_ACCESS_KEY_ID"),
                    aws_secret_access_key: env.var("AWS_SECRET_ACCESS_KEY"),
                    aws_region: env.var("AWS_DEFAULT_REGION"),
                    aws_endpoint: env.var("AWS_SNAPSHOT_ENDPOINT"),
                    aws_virtual_hosted_style_request: is_true(&hosted),
                    object_store_connection_limit: CONNECTION_LIMIT,
                    ..ObjectStoreConfig::default()
                },
            )
        } else if let Some(bucket) = &self.gcs {
            Ok(
                ObjectStoreConfig {
                    object_store: Some(ObjectStoreType::GCS),
                    bucket: Some(bucket.clone()),
                    google_service_account: env.var("GCS_SNAPSHOT_SERVICE_ACCOUNT_FILE_PATH"),
                    google_project_id: env.var("GCS_SNAPSHOT_SERVICE_ACCOUNT_PROJECT_ID"),
                    object_store_connection_limit: CONNECTION_LIMIT,
                    ..ObjectStoreConfig::default()
                },
            )
        } else if let Some(container) = &self.azure {
            Ok(
                ObjectStoreConfig {
                    object_store: Some(ObjectStoreType::Azure),
                    bucket: Some(container.clone()),
                    azure_storage_account: env.var("AZURE_SNAPSHOT_STORAGE_ACCOUNT"),
                    azure_storage_access_key: env.var("AZURE_SNAPSHOT_STORAGE_ACCESS_KEY"),
                    object_store_connection_limit: CONNECTION_LIMIT,
                    ..ObjectStoreConfig::default()
                },
            )
        } else if let Some(path) = &self.snapshot_dir {
            Ok(
                ObjectStoreConfig {
                    object_store: Some(ObjectStoreType::File),
                    directory: Some(path.clone()),
                    ..ObjectStoreConfig::default()
                },
            )
        } else if let Some(url) = &self.http {
            // A store of formal snapshots over HTTP answers as S3 does.
            Ok(
                ObjectStoreConfig {
                    object_store: Some(ObjectStoreType::S3),
                    aws_endpoint: Some(url.as_str().to_owned()),
                    aws_virtual_hosted_style_request: true,
                    object_store_connection_limit: CONNECTION_LIMIT,
                    no_sign_request: true,
                    ..ObjectStoreConfig::default()
                },
            )
        } else {
            Err(SnapshotSourceError::NotConfigured)
        }
    }
}

/// The object that a complete snapshot of an epoch holds.
pub open spec fn marker_text(epoch: int) -> Seq<char> {
    "epoch_"@ + crate::text::decimal(epoch) + "/_SUCCESS"@
}

/// The words for a snapshot that is not complete.
pub open spec fn incomplete_text(epoch: int) -> Seq<char> {
    "Snapshot for epoch "@ + crate::text::decimal(epoch) + " is not complete (missing "@
        + marker_text(epoch) + ")"@
}

/// The object that a complete snapshot of an epoch holds.
pub fn success_marker(epoch: u64) -> (marker: String)
    ensures
        marker@ == marker_text(epoch as int),
        marker@ == "epoch_"@ + crate::text::decimal(epoch as int) + "/_SUCCESS"@,
{
    "epoch_".to_owned().concat(decimal_text(epoch).as_str()).concat("/_SUCCESS")
}

/// Whether the snapshot of an epoch is complete: it is where the storage has its marker.
pub fn validate_snapshot(marker_found: bool, epoch: u64) -> (checked: Result<(), String>)
    ensures
        match checked {
            Ok(()) => marker_found,
            Err(words) => !marker_found && words@ == incomplete_text(epoch as int),
        },
        checked is Err ==> checked->Err_0@ == "Snapshot for epoch "@ + crate::text::decimal(
            epoch as int,
        ) + " is not complete (missing "@ + ("epoch_"@ + crate::text::decimal(epoch as int)
            + "/_SUCCESS"@) + ")"@,
{
    if marker_found {
        Ok(())
    } else {
        Err(
            "Snapshot for epoch ".to_owned().concat(decimal_text(epoch).as_str()).concat(
                " is not complete (missing ",
            ).concat(success_marker(epoch).as_str()).concat(")"),
        )
    }
}

/// A source that the user named is kept: no default takes its place.
pub proof fn named_source_wins(
    source: SourceView,
    network: Chain,
    no_sign_request: bool,
    env: Seq<(Seq<char>, Seq<char>)>,
)
    requires
        source.has_source(),
    ensures
        source.or_url(no_sign_request, public_url(network)) == source,
        source.or_bucket(db_bucket(network, env)) == source,
        source.or_url_or_bucket(no_sign_request, public_url(network), formal_bucket(network, env))
            == source,
{
}

/// Taking the defaults a second time, of whatever network, changes nothing once they named a source.
pub proof fn defaults_settle(
    source: SourceView,
    first: Chain,
    second: Chain,
    no_sign_request: bool,
    env: Seq<(Seq<char>, Seq<char>)>,
)
    ensures
        ({
            let open = source.or_url(no_sign_request, public_url(first));
            &&& open.or_url(no_sign_request, public_url(first)) == open
            &&& open.has_source() ==> open.or_url(no_sign_request, public_url(second)) == open
        }),
        ({
            let db = source.or_bucket(db_bucket(first, env));
            &&& db.or_bucket(db_bucket(first, env)) == db
            &&& db.has_source() ==> db.or_bucket(db_bucket(second, env)) == db
        }),
        ({
            let formal = source.or_url_or_bucket(
                no_sign_request,
                public_url(first),
                formal_bucket(first, env),
            );
            &&& formal.or_url_or_bucket(
                no_sign_request,
                public_url(first),
                formal_bucket(first, env),
            ) == formal
            &&& formal.has_source() ==> formal.or_url_or_bucket(
                no_sign_request,
                public_url(second),
                formal_bucket(second, env),
            ) == formal
        }),
{
}

/// Sources that exclude one another still do once the defaults are taken.
pub proof fn defaults_keep_one_source(
    source: SourceView,
    network: Chain,
    no_sign_request: bool,
    env: Seq<(Seq<char>, Seq<char>)>,
)
    requires
        source.sources() <= 1,
    ensures
        source.or_url(no_sign_request, public_url(network)).sources() <= 1,
        source.or_bucket(db_bucket(network, env)).sources() <= 1,
        source.or_url_or_bucket(
            no_sign_request,
            public_url(network),
            formal_bucket(network, env),
        ).sources() <= 1,
{
}

/// For an unsigned request the defaults of a formal snapshot are those of any snapshot.
pub proof fn unsigned_formal_defaults(
    source: SourceView,
    network: Chain,
    env: Seq<(Seq<char>, Seq<char>)>,
)
    ensures
        source.or_url_or_bucket(true, public_url(network), formal_bucket(network, env))
            == source.or_url(true, public_url(network)),
{
}

/// An unknown network has no defaults.
pub proof fn unknown_network_has_no_defaults(
    source: SourceView,
    no_sign_request: bool,
    env: Seq<(Seq<char>, Seq<char>)>,
)
    ensures
        source.or_url(no_sign_request, public_url(Chain::Unknown)) == source,
        source.or_bucket(db_bucket(Chain::Unknown, env)) == source,
        source.or_url_or_bucket(
            no_sign_request,
            public_url(Chain::Unknown),
            formal_bucket(Chain::Unknown, env),
        ) == source,
{
}

/// On a known network a signed request always has somewhere to go: a bucket on S3, by default.
pub proof fn signed_defaults_suffice(
    source: SourceView,
    network: Chain,
    env: Seq<(Seq<char>, Seq<char>)>,
)
    requires
        network != Chain::Unknown,
    ensures
        ({
            let db = source.or_bucket(db_bucket(network, env));
            &&& db.backend(env) is Some
            &&& db.store(env) is Some
            &&& !source.has_source() ==> db.s3 == db_bucket(network, env) && db.sources() == 1
        }),
        ({
            let formal = source.or_url_or_bucket(
                false,
                public_url(network),
                formal_bucket(network, env),
            );
            &&& formal.backend(env) is Some
            &&& formal.store(env) is Some
            &&& !source.has_source() ==> formal.s3 == formal_bucket(network, env)
                && formal.sources() == 1
        }),
{
}

/// On a known network an unsigned request always has somewhere to go: the public endpoint, by
/// default, and to it the requests go unsigned.
pub proof fn unsigned_defaults_suffice(
    source: SourceView,
    network: Chain,
    env: Seq<(Seq<char>, Seq<char>)>,
)
    requires
        network != Chain::Unknown,
    ensures
        ({
            let open = source.or_url(true, public_url(network));
            &&& open.backend(env) is Some
            &&& open.store(env) is Some
            &&& !source.has_source() ==> {
                &&& open.http == public_url(network)
                &&& open.sources() == 1
                &&& open.store(env)->0.no_sign_request
                &&& open.store(env)->0.aws_endpoint == public_url(network)
            }
        }),
{
}

/// A backend can be had, and a store configuration can be had, just where a source is named.
pub proof fn source_decides(source: SourceView, env: Seq<(Seq<char>, Seq<char>)>)
    ensures
        source.backend(env) is Some <==> source.has_source(),
        source.store(env) is Some <==> source.has_source(),
{
}

/// Requests go unsigned just where the HTTP endpoint is what the store configuration is made of.
pub proof fn unsigned_store_is_http(source: SourceView, env: Seq<(Seq<char>, Seq<char>)>)
    requires
        source.has_source(),
    ensures
        source.store(env)->0.no_sign_request <==> source.http is Some && source.s3 is None
            && source.gcs is None && source.azure is None && source.snapshot_dir is None,
{
}

/// The backend and the store configuration speak of one place, and reach it in one way.
pub open spec fn same_place(backend: BackendView, store: StoreView) -> bool {
    match backend {
        BackendView::S3 { bucket, access_key_id, secret_access_key, region, endpoint } => {
            &&& store.object_store == Some(ObjectStoreType::S3)
            &&& store.bucket == Some(bucket)
            &&& store.aws_access_key_id == access_key_id
            &&& store.aws_secret_access_key == secret_access_key
            &&& store.aws_region == region
            &&& store.aws_endpoint == endpoint
            &&& !store.no_sign_request
        },
        BackendView::Gcs { bucket, service_account, project_id } => {
            &&& store.object_store == Some(ObjectStoreType::GCS)
            &&& store.bucket == Some(bucket)
            &&& store.google_service_account == service_account
            &&& store.google_project_id == project_id
        },
        BackendView::Azure { container, account, access_key } => {
            &&& store.object_store == Some(ObjectStoreType::Azure)
            &&& store.bucket == Some(container)
            &&& store.azure_storage_account == account
            &&& store.azure_storage_access_key == access_key
        },
        BackendView::Http { url } => store.object_store == Some(ObjectStoreType::S3)
            && store.bucket is None && store.aws_endpoint == Some(url)
            && store.no_sign_request,
        BackendView::Local { path } => store.object_store == Some(ObjectStoreType::File)
            && store.directory == Some(path),
    }
}

/// The backend and the store configuration of the same sources speak of one place, and reach it in
/// one way, unless an HTTP endpoint and a local directory are named together and nothing before them.
pub proof fn backend_and_store_agree(source: SourceView, env: Seq<(Seq<char>, Seq<char>)>)
    requires
        source.has_source(),
        source.s3 is Some || source.gcs is Some || source.azure is Some || source.http is None
            || source.snapshot_dir is None,
    ensures
        same_place(source.backend(env)->0, source.store(env)->0),
{
}

/// A bucket on S3 is reached with the values of its own variables, set or not, whatever the others
/// say.
pub proof fn s3_follows_its_variables(source: SourceView, env: Seq<(Seq<char>, Seq<char>)>)
    requires
        source.s3 is Some,
    ensures
        source.backend(env) is Some,
        source.store(env) is Some,
        ({
            let backend = source.backend(env)->0;
            let store = source.store(env)->0;
            &&& backend is S3
            &&& backend->S3_bucket == source.s3->0
            &&& backend->access_key_id == crate::environment::variable(env, "AWS_ACCESS_KEY_ID"@)
            &&& backend->secret_access_key == crate::environment::variable(env, "AWS_SECRET_ACCESS_KEY"@)
            &&& backend->region == crate::environment::variable(env, "AWS_DEFAULT_REGION"@)
            &&& backend->endpoint == crate::environment::variable(env, "AWS_SNAPSHOT_ENDPOINT"@)
            &&& store.object_store == Some(ObjectStoreType::S3)
            &&& store.bucket == source.s3
            &&& store.aws_access_key_id == crate::environment::variable(env, "AWS_ACCESS_KEY_ID"@)
            &&& store.aws_secret_access_key == crate::environment::variable(env, "AWS_SECRET_ACCESS_KEY"@)
            &&& store.aws_region == crate::environment::variable(env, "AWS_DEFAULT_REGION"@)
            &&& store.aws_endpoint == crate::environment::variable(env, "AWS_SNAPSHOT_ENDPOINT"@)
            &&& store.aws_virtual_hosted_style_request <==> crate::environment::variable(env, "AWS_SNAPSHOT_VIRTUAL_HOSTED_REQUESTS"@) == Some("true"@)
            &&& store.object_store_connection_limit == 200
            &&& !store.no_sign_request
            &&& store.directory is None
        }),
{
}

/// Each value that a bucket on S3 is reached with depends on one variable alone.
pub proof fn s3_values_stand_alone(
    source: SourceView,
    env: Seq<(Seq<char>, Seq<char>)>,
    other: Seq<(Seq<char>, Seq<char>)>,
)
    requires
        source.s3 is Some,
    ensures
        crate::environment::variable(env, "AWS_ACCESS_KEY_ID"@) == crate::environment::variable(other, "AWS_ACCESS_KEY_ID"@) ==> {
            &&& source.backend(env)->0->access_key_id == source.backend(other)->0->access_key_id
            &&& source.store(env)->0.aws_access_key_id == source.store(other)->0.aws_access_key_id
        },
        crate::environment::variable(env, "AWS_SECRET_ACCESS_KEY"@) == crate::environment::variable(other, "AWS_SECRET_ACCESS_KEY"@) ==> {
            &&& source.backend(env)->0->secret_access_key == source.backend(other)->0->secret_access_key
            &&& source.store(env)->0.aws_secret_access_key == source.store(other)->0.aws_secret_access_key
        },
        crate::environment::variable(env, "AWS_DEFAULT_REGION"@) == crate::environment::variable(other, "AWS_DEFAULT_REGION"@) ==> {
            &&& source.backend(env)->0->region == source.backend(other)->0->region
            &&& source.store(env)->0.aws_region == source.store(other)->0.aws_region
        },
        crate::environment::variable(env, "AWS_SNAPSHOT_ENDPOINT"@) == crate::environment::variable(other, "AWS_SNAPSHOT_ENDPOINT"@) ==> {
            &&& source.backend(env)->0->endpoint == source.backend(other)->0->endpoint
            &&& source.store(env)->0.aws_endpoint == source.store(other)->0.aws_endpoint
        },
        crate::environment::variable(env, "AWS_SNAPSHOT_VIRTUAL_HOSTED_REQUESTS"@) == crate::environment::variable(other, "AWS_SNAPSHOT_VIRTUAL_HOSTED_REQUESTS"@) ==> source.store(env)->0.aws_virtual_hosted_style_request == source.store(
            other,
        )->0.aws_virtual_hosted_style_request,
{
}

/// A bucket on Google Cloud Storage is reached with the values of its own variables.
pub proof fn gcs_follows_its_variables(source: SourceView, env: Seq<(Seq<char>, Seq<char>)>)
    requires
        source.s3 is None,
        source.gcs is Some,
    ensures
        source.backend(env) is Some,
        source.store(env) is Some,
        ({
            let backend = source.backend(env)->0;
            let store = source.store(env)->0;
            &&& backend is Gcs
            &&& backend->Gcs_bucket == source.gcs->0
            &&& backend->service_account == crate::environment::variable(env, "GCS_SNAPSHOT_SERVICE_ACCOUNT_FILE_PATH"@)
            &&& backend->project_id == crate::environment::variable(env, "GCS_SNAPSHOT_SERVICE_ACCOUNT_PROJECT_ID"@)
            &&& store.object_store == Some(ObjectStoreType::GCS)
            &&& store.bucket == source.gcs
            &&& store.google_service_account == crate::environment::variable(env, "GCS_SNAPSHOT_SERVICE_ACCOUNT_FILE_PATH"@)
            &&& store.google_project_id == crate::environment::variable(env, "GCS_SNAPSHOT_SERVICE_ACCOUNT_PROJECT_ID"@)
            &&& !store.aws_virtual_hosted_style_request
            &&& store.object_store_connection_limit == 200
            &&& !store.no_sign_request
            &&& store.directory is None
        }),
{
}

/// Each value that a bucket on Google Cloud Storage is reached with depends on one variable alone.
pub proof fn gcs_values_stand_alone(
    source: SourceView,
    env: Seq<(Seq<char>, Seq<char>)>,
    other: Seq<(Seq<char>, Seq<char>)>,
)
    requires
        source.s3 is None,
        source.gcs is Some,
    ensures
        crate::environment::variable(env, "GCS_SNAPSHOT_SERVICE_ACCOUNT_FILE_PATH"@) == crate::environment::variable(other, "GCS_SNAPSHOT_SERVICE_ACCOUNT_FILE_PATH"@) ==> {
            &&& source.backend(env)->0->service_account == source.backend(other)->0->service_account
            &&& source.store(env)->0.google_service_account == source.store(other)->0.google_service_account
        },
        crate::environment::variable(env, "GCS_SNAPSHOT_SERVICE_ACCOUNT_PROJECT_ID"@) == crate::environment::variable(other, "GCS_SNAPSHOT_SERVICE_ACCOUNT_PROJECT_ID"@) ==> {
            &&& source.backend(env)->0->project_id == source.backend(other)->0->project_id
            &&& source.store(env)->0.google_project_id == source.store(other)->0.google_project_id
        },
{
}

/// A container on Azure is reached with the values of its own variables.
pub proof fn azure_follows_its_variables(source: SourceView, env: Seq<(Seq<char>, Seq<char>)>)
    requires
        source.s3 is None,
        source.gcs is None,
        source.azure is Some,
    ensures
        source.backend(env) is Some,
        source.store(env) is Some,
        ({
            let backend = source.backend(env)->0;
            let store = source.store(env)->0;
            &&& backend is Azure
            &&& backend->container == source.azure->0
            &&& backend->account == crate::environment::variable(env, "AZURE_SNAPSHOT_STORAGE_ACCOUNT"@)
            &&& backend->access_key == crate::environment::variable(env, "AZURE_SNAPSHOT_STORAGE_ACCESS_KEY"@)
            &&& store.object_store == Some(ObjectStoreType::Azure)
            &&& store.bucket == source.azure
            &&& store.azure_storage_account == crate::environment::variable(env, "AZURE_SNAPSHOT_STORAGE_ACCOUNT"@)
            &&& store.azure_storage_access_key == crate::environment::variable(env, "AZURE_SNAPSHOT_STORAGE_ACCESS_KEY"@)
            &&& !store.aws_virtual_hosted_style_request
            &&& store.object_store_connection_limit == 200
            &&& !store.no_sign_request
            &&& store.directory is None
        }),
{
}

/// Each value that a container on Azure is reached with depends on one variable alone.
pub proof fn azure_values_stand_alone(
    source: SourceView,
    env: Seq<(Seq<char>, Seq<char>)>,
    other: Seq<(Seq<char>, Seq<char>)>,
)
    requires
        source.s3 is None,
        source.gcs is None,
        source.azure is Some,
    ensures
        crate::environment::variable(env, "AZURE_SNAPSHOT_STORAGE_ACCOUNT"@) == crate::environment::variable(other, "AZURE_SNAPSHOT_STORAGE_ACCOUNT"@) ==> {
            &&& source.backend(env)->0->account == source.backend(other)->0->account
            &&& source.store(env)->0.azure_storage_account == source.store(other)->0.azure_storage_account
        },
        crate::environment::variable(env, "AZURE_SNAPSHOT_STORAGE_ACCESS_KEY"@) == crate::environment::variable(other, "AZURE_SNAPSHOT_STORAGE_ACCESS_KEY"@) ==> {
            &&& source.backend(env)->0->access_key == source.backend(other)->0->access_key
            &&& source.store(env)->0.azure_storage_access_key == source.store(other)->0.azure_storage_access_key
        },
{
}

/// An HTTP endpoint is read from as it is, whatever the environment; its store configuration is
/// unsigned, virtually hosted, and holds nothing but the endpoint.
pub proof fn http_is_unsigned_and_hosted(source: SourceView, env: Seq<(Seq<char>, Seq<char>)>)
    requires
        source.s3 is None,
        source.gcs is None,
        source.azure is None,
        source.http is Some,
    ensures
        source.backend(env) == Some(BackendView::Http { url: source.http->0 }),
        source.snapshot_dir is None ==> source.store(env) is Some && {
            let store = source.store(env)->0;
            &&& store.object_store == Some(ObjectStoreType::S3)
            &&& store.aws_endpoint == source.http
            &&& store.aws_virtual_hosted_style_request
            &&& store.no_sign_request
            &&& store.object_store_connection_limit == 200
            &&& store.directory is None
            &&& store.bucket is None
            &&& store.aws_access_key_id is None
            &&& store.aws_secret_access_key is None
            &&& store.aws_region is None
            &&& store.google_service_account is None
            &&& store.google_project_id is None
            &&& store.azure_storage_account is None
            &&& store.azure_storage_access_key is None
        },
{
}

/// A local directory is read from as it is, whatever the environment, and its store configuration
/// holds
/// nothing else.
pub proof fn directory_is_all_there_is(source: SourceView, env: Seq<(Seq<char>, Seq<char>)>)
    requires
        source.s3 is None,
        source.gcs is None,
        source.azure is None,
        source.snapshot_dir is Some,
    ensures
        source.http is None ==> source.backend(env) == Some(
            BackendView::Local { path: source.snapshot_dir->0 },
        ),
        source.store(env) is Some,
        ({
            let store = source.store(env)->0;
            &&& store.object_store == Some(ObjectStoreType::File)
            &&& store.directory == source.snapshot_dir
            &&& !store.aws_virtual_hosted_style_request
            &&& !store.no_sign_request
            &&& store.object_store_connection_limit == 0
            &&& store.bucket is None
            &&& store.aws_access_key_id is None
            &&& store.aws_secret_access_key is None
            &&& store.aws_region is None
            &&& store.aws_endpoint is None
            &&& store.google_service_account is None
            &&& store.google_project_id is None
            &&& store.azure_storage_account is None
            &&& store.azure_storage_access_key is None
        }),
{
}

/// What is fetched on mainnet by default, by name: the public endpoint for an unsigned request, and
/// for a
/// signed one the bucket that the environment names or else the one that is known.
pub proof fn defaults_on_mainnet(source: SourceView, env: Seq<(Seq<char>, Seq<char>)>)
    requires
        !source.has_source(),
    ensures
        source.or_url(true, public_url(Chain::Mainnet)) == (SourceView {
            http: Some("https://formal-snapshot.mainnet.sui.io/"@),
            ..source
        }),
        source.or_url(false, public_url(Chain::Mainnet)) == source,
        source.or_bucket(db_bucket(Chain::Mainnet, env)) == (SourceView {
            s3: Some(
                match crate::environment::variable(env, "MAINNET_DB_SIGNED_BUCKET"@) {
                    Some(bucket) => bucket,
                    None => "mysten-mainnet-snapshots"@,
                },
            ),
            ..source
        }),
        source.or_url_or_bucket(
            true,
            public_url(Chain::Mainnet),
            formal_bucket(Chain::Mainnet, env),
        ) == (SourceView { http: Some("https://formal-snapshot.mainnet.sui.io/"@), ..source }),
        source.or_url_or_bucket(
            false,
            public_url(Chain::Mainnet),
            formal_bucket(Chain::Mainnet, env),
        ) == (SourceView {
            s3: Some(
                match crate::environment::variable(env, "MAINNET_FORMAL_SIGNED_BUCKET"@) {
                    Some(bucket) => bucket,
                    None => "mysten-mainnet-formal"@,
                },
            ),
            ..source
        }),
{
    public_urls(Chain::Mainnet);
}

/// What is fetched on testnet by default, by name: the public endpoint for an unsigned request, and
/// for a
/// signed one the bucket that the environment names or else the one that is known.
pub proof fn defaults_on_testnet(source: SourceView, env: Seq<(Seq<char>, Seq<char>)>)
    requires
        !source.has_source(),
    ensures
        source.or_url(true, public_url(Chain::Testnet)) == (SourceView {
            http: Some("https://formal-snapshot.testnet.sui.io/"@),
            ..source
        }),
        source.or_url(false, public_url(Chain::Testnet)) == source,
        source.or_bucket(db_bucket(Chain::Testnet, env)) == (SourceView {
            s3: Some(
                match crate::environment::variable(env, "TESTNET_DB_SIGNED_BUCKET"@) {
                    Some(bucket) => bucket,
                    None => "mysten-testnet-snapshots"@,
                },
            ),
            ..source
        }),
        source.or_url_or_bucket(
            true,
            public_url(Chain::Testnet),
            formal_bucket(Chain::Testnet, env),
        ) == (SourceView { http: Some("https://formal-snapshot.testnet.sui.io/"@), ..source }),
        source.or_url_or_bucket(
            false,
            public_url(Chain::Testnet),
            formal_bucket(Chain::Testnet, env),
        ) == (SourceView {
            s3: Some(
                match crate::environment::variable(env, "TESTNET_FORMAL_SIGNED_BUCKET"@) {
                    Some(bucket) => bucket,
                    None => "mysten-testnet-formal"@,
                },
            ),
            ..source
        }),
{
    public_urls(Chain::Testnet);
}

/// A source is named where one of the five is.
pub proof fn one_of_five(source: SourceView)
    ensures
        source.has_source() <==> source.s3 is Some || source.gcs is Some || source.azure is Some
            || source.http is Some || source.snapshot_dir is Some,
{
}

/// Sources and store configurations stand for themselves, field by field.
pub proof fn fields_one_by_one(args: SnapshotSourceArgs, config: ObjectStoreConfig)
    ensures
        args@.s3 == match args.s3 {
            Some(value) => Some(value@),
            None => None,
        },
        args@.gcs == match args.gcs {
            Some(value) => Some(value@),
            None => None,
        },
        args@.azure == match args.azure {
            Some(value) => Some(value@),
            None => None,
        },
        args@.http == match args.http {
            Some(value) => Some(value@),
            None => None,
        },
        args@.snapshot_dir == args.snapshot_dir,
        config@.object_store == config.object_store,
        config@.directory == config.directory,
        config@.bucket == match config.bucket {
            Some(value) => Some(value@),
            None => None,
        },
        config@.aws_access_key_id == match config.aws_access_key_id {
            Some(value) => Some(value@),
            None => None,
        },
        config@.aws_secret_access_key == match config.aws_secret_access_key {
            Some(value) => Some(value@),
            None => None,
        },
        config@.aws_region == match config.aws_region {
            Some(value) => Some(value@),
            None => None,
        },
        config@.aws_endpoint == match config.aws_endpoint {
            Some(value) => Some(value@),
            None => None,
        },
        config@.google_service_account == match config.google_service_account {
            Some(value) => Some(value@),
            None => None,
        },
        config@.google_project_id == match config.google_project_id {
            Some(value) => Some(value@),
            None => None,
        },
        config@.azure_storage_account == match config.azure_storage_account {
            Some(value) => Some(value@),
            None => None,
        },
        config@.azure_storage_access_key == match config.azure_storage_access_key {
            Some(value) => Some(value@),
            None => None,
        },
        config@.aws_virtual_hosted_style_request == config.aws_virtual_hosted_style_request,
        config@.object_store_connection_limit == config.object_store_connection_limit,
        config@.no_sign_request == config.no_sign_request,
{
}

/// Different epochs have different markers.
pub proof fn marker_injective(a: u64, b: u64)
    requires
        marker_text(a as int) == marker_text(b as int),
    ensures
        a == b,
{
    let head = "epoch_"@;
    let tail = "/_SUCCESS"@;
    let da = crate::text::decimal(a as int);
    let db = crate::text::decimal(b as int);
    assert(marker_text(a as int).len() == head.len() + da.len() + tail.len());
    assert(marker_text(b as int).len() == head.len() + db.len() + tail.len());
    assert(da =~= marker_text(a as int).subrange(head.len() as int, (head.len() + da.len()) as int));
    assert(db =~= marker_text(b as int).subrange(head.len() as int, (head.len() + db.len()) as int));
    crate::text::decimal_injective(a as int, b as int);
}

} // verus!
