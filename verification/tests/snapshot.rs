use std::path::PathBuf;
use sui_proxy::environment::Environment;
use sui_proxy::snapshot_config::{
    public_snapshot_url, success_marker, validate_snapshot, Chain, ObjectStoreType,
    SnapshotSourceArgs, SnapshotSourceError, StorageBackend,
};
use sui_proxy::text::decimal_text;
use sui_proxy::urls::Url;

fn no_source() -> SnapshotSourceArgs {
    SnapshotSourceArgs {
        s3: None,
        gcs: None,
        azure: None,
        http: None,
        snapshot_dir: None,
    }
}

fn env(variables: &[(&str, &str)]) -> Environment {
    Environment {
        variables: variables
            .iter()
            .map(|(name, value)| (name.to_string(), value.to_string()))
            .collect(),
    }
}

/// One value for each kind of source.
fn each_source() -> Vec<SnapshotSourceArgs> {
    let mut all = vec![no_source(), no_source(), no_source(), no_source(), no_source()];
    all[0].s3 = Some("bucket".to_string());
    all[1].gcs = Some("bucket".to_string());
    all[2].azure = Some("container".to_string());
    all[3].http = Url::parse("http://snapshots");
    all[4].snapshot_dir = Some(PathBuf::from("/snapshots"));
    all
}

fn url_of(args: &SnapshotSourceArgs) -> Option<String> {
    args.http.as_ref().map(|url| url.as_str().to_string())
}

fn same(a: &SnapshotSourceArgs, b: &SnapshotSourceArgs) -> bool {
    a.s3 == b.s3
        && a.gcs == b.gcs
        && a.azure == b.azure
        && a.http == b.http
        && a.snapshot_dir == b.snapshot_dir
}

#[test]
fn unsigned_defaults_are_the_public_endpoints() {
    let args = no_source().with_defaults(Chain::Mainnet, true);
    assert_eq!(
        url_of(&args),
        Some("https://formal-snapshot.mainnet.sui.io/".to_string())
    );
    assert!(args.s3.is_none());
    let args = no_source().with_defaults(Chain::Testnet, true);
    assert_eq!(
        url_of(&args),
        Some("https://formal-snapshot.testnet.sui.io/".to_string())
    );
    assert!(same(
        &no_source().with_defaults(Chain::Unknown, true),
        &no_source()
    ));
    assert!(same(
        &no_source().with_defaults(Chain::Mainnet, false),
        &no_source()
    ));
    assert_eq!(
        public_snapshot_url(Chain::Mainnet).unwrap().as_str(),
        "https://formal-snapshot.mainnet.sui.io/"
    );
    assert!(public_snapshot_url(Chain::Unknown).is_none());
}

#[test]
fn url_default_needs_a_url() {
    assert!(same(&no_source().with_default_url(true, None), &no_source()));
    let url = Url::parse("http://h").unwrap();
    let args = no_source().with_default_url(true, Some(url.clone()));
    assert_eq!(args.http, Some(url.clone()));
    assert!(same(
        &no_source().with_default_url(false, Some(url)),
        &no_source()
    ));
}

#[test]
fn db_defaults_are_buckets() {
    let args = no_source().with_db_defaults(Chain::Mainnet, &env(&[]));
    assert_eq!(args.s3, Some("mysten-mainnet-snapshots".to_string()));
    let args = no_source().with_db_defaults(Chain::Testnet, &env(&[]));
    assert_eq!(args.s3, Some("mysten-testnet-snapshots".to_string()));
    let args = no_source().with_db_defaults(Chain::Unknown, &env(&[]));
    assert!(same(&args, &no_source()));
}

#[test]
fn environment_names_another_db_bucket() {
    let env = env(&[
        ("MAINNET_DB_SIGNED_BUCKET", "mine"),
        ("TESTNET_DB_SIGNED_BUCKET", ""),
    ]);
    let args = no_source().with_db_defaults(Chain::Mainnet, &env);
    assert_eq!(args.s3, Some("mine".to_string()));
    let args = no_source().with_db_defaults(Chain::Testnet, &env);
    assert_eq!(args.s3, Some("".to_string()));
}

#[test]
fn formal_defaults_are_buckets_for_signed_requests() {
    let args = no_source().with_formal_defaults(Chain::Mainnet, false, &env(&[]));
    assert_eq!(args.s3, Some("mysten-mainnet-formal".to_string()));
    assert!(args.http.is_none());
    let args = no_source().with_formal_defaults(Chain::Testnet, false, &env(&[]));
    assert_eq!(args.s3, Some("mysten-testnet-formal".to_string()));
    let args = no_source().with_formal_defaults(Chain::Unknown, false, &env(&[]));
    assert!(same(&args, &no_source()));
    let env = env(&[
        ("MAINNET_FORMAL_SIGNED_BUCKET", "m"),
        ("TESTNET_FORMAL_SIGNED_BUCKET", "t"),
    ]);
    let args = no_source().with_formal_defaults(Chain::Mainnet, false, &env);
    assert_eq!(args.s3, Some("m".to_string()));
    let args = no_source().with_formal_defaults(Chain::Testnet, false, &env);
    assert_eq!(args.s3, Some("t".to_string()));
}

#[test]
fn formal_defaults_are_endpoints_for_unsigned_requests() {
    for network in [Chain::Mainnet, Chain::Testnet, Chain::Unknown] {
        assert!(same(
            &no_source().with_formal_defaults(network, true, &env(&[])),
            &no_source().with_defaults(network, true)
        ));
    }
    let args = no_source().with_formal_url(Chain::Mainnet, true, None, &env(&[]));
    assert!(same(&args, &no_source()));
}

#[test]
fn named_source_is_kept() {
    let env = env(&[("MAINNET_DB_SIGNED_BUCKET", "mine")]);
    for args in each_source() {
        assert!(args.has_source());
        assert!(same(
            &args.clone().with_defaults(Chain::Mainnet, true),
            &args
        ));
        assert!(same(
            &args.clone().with_db_defaults(Chain::Mainnet, &env),
            &args
        ));
        assert!(same(
            &args.clone().with_formal_defaults(Chain::Testnet, true, &env),
            &args
        ));
        assert!(same(
            &args.clone().with_formal_defaults(Chain::Testnet, false, &env),
            &args
        ));
    }
    assert!(!no_source().has_source());
}

#[test]
fn defaults_taken_twice_are_the_defaults() {
    let once = no_source().with_formal_defaults(Chain::Mainnet, false, &env(&[]));
    let twice = once
        .clone()
        .with_formal_defaults(Chain::Testnet, true, &env(&[]));
    assert!(same(&once, &twice));
}

#[test]
fn backends() {
    let env = env(&[
        ("AWS_ACCESS_KEY_ID", "id"),
        ("AWS_SECRET_ACCESS_KEY", "word"),
        ("AWS_DEFAULT_REGION", "region"),
        ("AWS_SNAPSHOT_ENDPOINT", "http://s3"),
        ("GCS_SNAPSHOT_SERVICE_ACCOUNT_FILE_PATH", "file"),
        ("GCS_SNAPSHOT_SERVICE_ACCOUNT_PROJECT_ID", "project"),
        ("AZURE_SNAPSHOT_STORAGE_ACCOUNT", "account"),
        ("AZURE_SNAPSHOT_STORAGE_ACCESS_KEY", "access"),
    ]);
    let backends: Vec<StorageBackend> = each_source()
        .iter()
        .map(|args| args.build_storage(&env).unwrap())
        .collect();
    match &backends[0] {
        StorageBackend::S3 {
            bucket,
            access_key_id,
            secret_access_key,
            region,
            endpoint,
        } => {
            assert_eq!(bucket, "bucket");
            assert_eq!(access_key_id.as_deref(), Some("id"));
            assert_eq!(secret_access_key.as_deref(), Some("word"));
            assert_eq!(region.as_deref(), Some("region"));
            assert_eq!(endpoint.as_deref(), Some("http://s3"));
        }
        _ => panic!("not S3"),
    }
    match &backends[1] {
        StorageBackend::Gcs {
            bucket,
            service_account,
            project_id,
        } => {
            assert_eq!(bucket, "bucket");
            assert_eq!(service_account.as_deref(), Some("file"));
            assert_eq!(project_id.as_deref(), Some("project"));
        }
        _ => panic!("not GCS"),
    }
    match &backends[2] {
        StorageBackend::Azure {
            container,
            account,
            access_key,
        } => {
            assert_eq!(container, "container");
            assert_eq!(account.as_deref(), Some("account"));
            assert_eq!(access_key.as_deref(), Some("access"));
        }
        _ => panic!("not Azure"),
    }
    assert!(matches!(&backends[3], StorageBackend::Http { url } if url.as_str() == "http://snapshots/"));
    assert!(
        matches!(&backends[4], StorageBackend::Local { path } if *path == PathBuf::from("/snapshots"))
    );
}

#[test]
fn backends_in_an_empty_environment() {
    let backend = each_source()[0].build_storage(&env(&[])).unwrap();
    assert!(matches!(
        backend,
        StorageBackend::S3 {
            access_key_id: None,
            secret_access_key: None,
            region: None,
            endpoint: None,
            ..
        }
    ));
    let backend = each_source()[1].build_storage(&env(&[])).unwrap();
    assert!(matches!(
        backend,
        StorageBackend::Gcs {
            service_account: None,
            project_id: None,
            ..
        }
    ));
    let backend = each_source()[2].build_storage(&env(&[])).unwrap();
    assert!(matches!(
        backend,
        StorageBackend::Azure {
            account: None,
            access_key: None,
            ..
        }
    ));
}

#[test]
fn copies_name_the_same_sources() {
    for args in each_source() {
        assert!(same(&args.clone(), &args));
    }
}

#[test]
fn no_source_no_backend() {
    let error = no_source().build_storage(&env(&[])).unwrap_err();
    assert_eq!(error, SnapshotSourceError::NotProvided);
    assert_eq!(error.message(), "No snapshot source provided");
}

#[test]
fn no_source_no_store_configuration() {
    let error = no_source().to_object_store_config(&env(&[])).unwrap_err();
    assert_eq!(error, SnapshotSourceError::NotConfigured);
    assert_eq!(error.message(), "No snapshot source configured");
}

#[test]
fn store_configuration_for_s3() {
    let env = env(&[
        ("AWS_ACCESS_KEY_ID", "id"),
        ("AWS_SECRET_ACCESS_KEY", "word"),
        ("AWS_DEFAULT_REGION", "region"),
        ("AWS_SNAPSHOT_ENDPOINT", "endpoint"),
        ("AWS_SNAPSHOT_VIRTUAL_HOSTED_REQUESTS", "true"),
    ]);
    let config = each_source()[0].to_object_store_config(&env).unwrap();
    assert_eq!(config.object_store, Some(ObjectStoreType::S3));
    assert_eq!(config.bucket.as_deref(), Some("bucket"));
    assert_eq!(config.aws_access_key_id.as_deref(), Some("id"));
    assert_eq!(config.aws_secret_access_key.as_deref(), Some("word"));
    assert_eq!(config.aws_region.as_deref(), Some("region"));
    assert_eq!(config.aws_endpoint.as_deref(), Some("endpoint"));
    assert!(config.aws_virtual_hosted_style_request);
    assert_eq!(config.object_store_connection_limit, 200);
    assert!(!config.no_sign_request);
    assert!(config.directory.is_none());
    assert!(config.google_project_id.is_none());
}

#[test]
fn virtual_hosting_is_off_unless_it_says_true() {
    for value in ["false", "True", "1", "", " true"] {
        let env = env(&[("AWS_SNAPSHOT_VIRTUAL_HOSTED_REQUESTS", value)]);
        let config = each_source()[0].to_object_store_config(&env).unwrap();
        assert!(!config.aws_virtual_hosted_style_request);
    }
    let config = each_source()[0].to_object_store_config(&env(&[])).unwrap();
    assert!(!config.aws_virtual_hosted_style_request);
    assert!(config.aws_region.is_none());
}

#[test]
fn store_configuration_for_gcs_and_azure() {
    let env = env(&[
        ("GCS_SNAPSHOT_SERVICE_ACCOUNT_FILE_PATH", "file"),
        ("GCS_SNAPSHOT_SERVICE_ACCOUNT_PROJECT_ID", "project"),
        ("AZURE_SNAPSHOT_STORAGE_ACCOUNT", "account"),
        ("AZURE_SNAPSHOT_STORAGE_ACCESS_KEY", "access"),
    ]);
    let config = each_source()[1].to_object_store_config(&env).unwrap();
    assert_eq!(config.object_store, Some(ObjectStoreType::GCS));
    assert_eq!(config.bucket.as_deref(), Some("bucket"));
    assert_eq!(config.google_service_account.as_deref(), Some("file"));
    assert_eq!(config.google_project_id.as_deref(), Some("project"));
    assert_eq!(config.object_store_connection_limit, 200);
    assert!(config.azure_storage_account.is_none());

    let config = each_source()[2].to_object_store_config(&env).unwrap();
    assert_eq!(config.object_store, Some(ObjectStoreType::Azure));
    assert_eq!(config.bucket.as_deref(), Some("container"));
    assert_eq!(config.azure_storage_account.as_deref(), Some("account"));
    assert_eq!(config.azure_storage_access_key.as_deref(), Some("access"));
    assert_eq!(config.object_store_connection_limit, 200);
    assert!(config.google_service_account.is_none());
}

#[test]
fn store_configuration_for_http_and_directory() {
    let config = each_source()[3].to_object_store_config(&env(&[])).unwrap();
    assert_eq!(config.object_store, Some(ObjectStoreType::S3));
    assert!(config.bucket.is_none());
    assert_eq!(config.aws_endpoint.as_deref(), Some("http://snapshots/"));
    assert!(config.aws_virtual_hosted_style_request);
    assert!(config.no_sign_request);
    assert_eq!(config.object_store_connection_limit, 200);

    let config = each_source()[4].to_object_store_config(&env(&[])).unwrap();
    assert_eq!(config.object_store, Some(ObjectStoreType::File));
    assert_eq!(config.directory, Some(PathBuf::from("/snapshots")));
    assert!(config.bucket.is_none());
    assert!(!config.no_sign_request);
    assert_eq!(config.object_store_connection_limit, 0);
}

#[test]
fn order_of_sources() {
    let mut all = no_source();
    all.snapshot_dir = Some(PathBuf::from("/snapshots"));
    all.http = Url::parse("http://snapshots");
    // Together, the endpoint is read from and the directory is configured.
    assert!(matches!(
        all.build_storage(&env(&[])).unwrap(),
        StorageBackend::Http { .. }
    ));
    assert_eq!(
        all.to_object_store_config(&env(&[])).unwrap().object_store,
        Some(ObjectStoreType::File)
    );
    all.azure = Some("container".to_string());
    assert!(matches!(
        all.build_storage(&env(&[])).unwrap(),
        StorageBackend::Azure { .. }
    ));
    all.gcs = Some("bucket".to_string());
    assert_eq!(
        all.to_object_store_config(&env(&[])).unwrap().object_store,
        Some(ObjectStoreType::GCS)
    );
    all.s3 = Some("bucket".to_string());
    assert!(matches!(
        all.build_storage(&env(&[])).unwrap(),
        StorageBackend::S3 { .. }
    ));
}

#[test]
fn first_variable_of_a_name_counts() {
    let env = env(&[("A", "1"), ("B", "2"), ("A", "3")]);
    assert_eq!(env.var("A").as_deref(), Some("1"));
    assert_eq!(env.var("B").as_deref(), Some("2"));
    assert_eq!(env.var("a"), None);
}

#[test]
fn plain_hosts_are_urls() {
    for host in ["a", "snapshots", "formal-snapshot.mainnet.sui.io", "a-b.c-d.e", "xn.b-c"] {
        for scheme in ["http", "https"] {
            let text = format!("{scheme}://{host}");
            assert_eq!(Url::parse(&text).unwrap().as_str(), format!("{text}/"));
        }
    }
}

#[test]
fn texts_that_are_no_url() {
    assert!(Url::parse("").is_none());
    assert!(Url::parse("snapshots").is_none());
    assert_eq!(Url::parse("HTTP://A.b").unwrap().as_str(), "http://a.b/");
}

#[test]
fn markers() {
    assert_eq!(success_marker(0), "epoch_0/_SUCCESS");
    assert_eq!(success_marker(42), "epoch_42/_SUCCESS");
    assert_ne!(success_marker(1), success_marker(10));
    assert_eq!(decimal_text(u64::MAX), u64::MAX.to_string());
}

#[test]
fn snapshot_is_complete_with_its_marker() {
    assert_eq!(validate_snapshot(true, 7), Ok(()));
    assert_eq!(
        validate_snapshot(false, 7),
        Err("Snapshot for epoch 7 is not complete (missing epoch_7/_SUCCESS)".to_string())
    );
}
