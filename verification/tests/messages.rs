use habitat_sup::error::{key_parameter_message, malformed_archive_message};
use habitat_sup::text::join;
use habitat_sup::{Cause, Error, PackageIdent, SupError, LOGKEY};

fn cause(display: &str, debug: &str, description: &str) -> Cause {
    Cause::new(display.to_string(), debug.to_string(), description.to_string())
}

fn raised(err: Error) -> SupError {
    SupError::raised_at(err, "components/sup/src/manager.rs", 42, 7)
}

fn message(err: Error) -> String {
    raised(err).message()
}

fn description(err: Error) -> String {
    raised(err).description().to_string()
}

fn ident(origin: &str, name: &str, version: Option<&str>, release: Option<&str>) -> PackageIdent {
    PackageIdent::new(
        origin.to_string(),
        name.to_string(),
        version.map(|v| v.to_string()),
        release.map(|r| r.to_string()),
    )
}

#[test]
fn matching_on_the_kind_of_error() {
    let error = raised(Error::CommandNotImplemented);
    let result = match error {
        SupError { err: Error::CommandNotImplemented, .. } => true,
        _ => false,
    };
    assert_eq!(result, true);
}

#[test]
fn new_keeps_the_location() {
    let error = SupError::new(Error::IPFailed, "XY", "src/main.rs", 12, 34);
    assert_eq!(error.logkey(), "XY");
    assert_eq!(error.file(), "src/main.rs");
    assert_eq!(error.line(), 12);
    assert_eq!(error.column(), 34);
    assert!(matches!(error.err, Error::IPFailed));
}

#[test]
fn raised_at_uses_the_supervisor_log_key() {
    let error = raised(Error::NoRunFile);
    assert_eq!(LOGKEY, "ER");
    assert_eq!(error.logkey(), "ER");
    assert_eq!(error.file(), "components/sup/src/manager.rs");
    assert_eq!(error.line(), 42);
    assert_eq!(error.column(), 7);
}

#[test]
fn data_path_messages() {
    assert_eq!(
        message(Error::BadDataFile("/hab/sup/data/census.dat".to_string(), cause("denied", "Denied", "permission denied"))),
        "Unable to read or write to data file, /hab/sup/data/census.dat, denied"
    );
    assert_eq!(
        message(Error::BadDataPath("/hab/sup/data".to_string(), cause("gone", "Gone", "not found"))),
        "Unable to read or write to data directory, /hab/sup/data, gone"
    );
    assert_eq!(
        message(Error::BadSpecsPath("/hab/sup/specs".to_string(), cause("full", "Full", "disk full"))),
        "Unable to create the specs directory '/hab/sup/specs' (full)"
    );
}

#[test]
fn messages_that_prefix_the_cause() {
    let c = || cause("boom", "Boom { code: 1 }", "it went boom");
    assert_eq!(message(Error::ButterflyError(c())), "Butterfly error: boom");
    assert_eq!(message(Error::InvalidPort(c())), "Invalid port number in package expose metadata: boom");
    assert_eq!(message(Error::NameLookup(c())), "Error resolving a name or IP address: boom");
    assert_eq!(message(Error::NetParseError(c())), "Can't parse ip:port: boom");
    assert_eq!(message(Error::TomlEncode(c())), "Failed to encode TOML: boom");
    assert_eq!(message(Error::TomlParser(c())), "Failed to parse TOML: boom");
    assert_eq!(message(Error::MetaFileIO(c())), "IO error while accessing MetaFile: Boom { code: 1 }");
}

#[test]
fn messages_that_are_the_cause() {
    let c = || cause("boom", "Boom { code: 1 }", "it went boom");
    assert_eq!(message(Error::DepotClient(c())), "boom");
    assert_eq!(message(Error::EnvJoinPathsError(c())), "boom");
    assert_eq!(message(Error::HabitatCommon(c())), "boom");
    assert_eq!(message(Error::HabitatCore(c())), "boom");
    assert_eq!(message(Error::TemplateFileError(c())), "Boom { code: 1 }");
    assert_eq!(message(Error::TemplateRenderError(c())), "boom");
    assert_eq!(message(Error::Io(c())), "boom");
    assert_eq!(message(Error::NulError(c())), "boom");
    assert_eq!(message(Error::SpecWatcherGlob(c())), "boom");
    assert_eq!(message(Error::SpecWatcherNotify(c())), "boom");
    assert_eq!(message(Error::StrFromUtf8Error(c())), "boom");
    assert_eq!(message(Error::StringFromUtf8Error(c())), "boom");
    assert_eq!(message(Error::TryRecvError(c())), "boom");
}

#[test]
fn messages_with_details() {
    assert_eq!(
        message(Error::ExecCommandNotFound("hab-launch".to_string())),
        "`hab-launch' was not found on the filesystem or in PATH"
    );
    assert_eq!(message(Error::FileNotFound("/tmp/x".to_string())), "File not found at: /tmp/x");
    assert_eq!(
        message(Error::InvalidBinding("db".to_string())),
        "Invalid binding \"db\", must be of the form <NAME>:<SERVICE_GROUP> where <NAME> is a \
         service name and <SERVICE_GROUP> is a valid service group"
    );
    assert_eq!(message(Error::InvalidServiceGroupString("redis".to_string())), "Invalid service group string: redis");
    assert_eq!(message(Error::InvalidTopology("ring".to_string())), "Invalid topology: ring");
    assert_eq!(message(Error::InvalidUpdateStrategy("fast".to_string())), "Invalid update strategy: fast");
    assert_eq!(message(Error::KeyNotFound("core-2017".to_string())), "Key not found in key cache: core-2017");
    assert_eq!(message(Error::Permissions("not allowed".to_string())), "not allowed");
    assert_eq!(
        message(Error::ServiceSpecFileRead("a.spec".to_string(), "eof".to_string())),
        "Service spec file 'a.spec' could not be read successfully: eof"
    );
    assert_eq!(
        message(Error::ServiceSpecFileWrite("a.spec".to_string(), "ro".to_string())),
        "Service spec file 'a.spec' could not be written successfully: ro"
    );
    assert_eq!(message(Error::ServiceSpecParse("bad".to_string())), "Service spec could not be parsed successfully: bad");
    assert_eq!(
        message(Error::ServiceSpecRender("bad".to_string())),
        "Service spec TOML could not be rendered successfully: bad"
    );
    assert_eq!(
        message(Error::SpecWatcherDirNotFound("/hab/sup/specs".to_string())),
        "Spec directory '/hab/sup/specs' not created or is not a directory"
    );
    assert_eq!(message(Error::TomlMergeError("clash".to_string())), "Failed to merge TOML: clash");
}

#[test]
fn fixed_messages() {
    assert_eq!(message(Error::CommandNotImplemented), "Command is not yet implemented!");
    assert_eq!(message(Error::DbInvalidPath), "Invalid filepath to internal datastore");
    assert_eq!(message(Error::InvalidPidFile), "Invalid child process PID file");
    assert_eq!(message(Error::IPFailed), "Failed to discover this hosts outbound IP address");
    assert_eq!(
        message(Error::MissingRequiredIdent),
        "Missing required ident field: (example: ident = \"core/redis\")"
    );
    assert_eq!(
        message(Error::NoRunFile),
        "No run file is present for this package; specify a run hook or $pkg_svc_run in your plan"
    );
    assert_eq!(
        message(Error::NoProcessLock),
        "Unable to obtain a mutually exclusive process lock. This typically happens if a previously \
         running Supervisor was unable to cleanup `/hab/sup/default/LOCK` before terminating or if \
         you are attempting to run multiple Supervisors. Running multiple Supervisors is not \
         recommended, but can be done by setting a value for `--override-name`"
    );
    assert_eq!(
        message(Error::RootRequired),
        "Root or administrator permissions required to complete operation"
    );
    assert_eq!(message(Error::SignalFailed), "Failed to send a signal to the child process");
    assert_eq!(message(Error::SignalNotifierStarted), "Only one instance of a Signal Notifier may be running");
    assert_eq!(message(Error::UnpackFailed), "Failed to unpack a package");
}

#[test]
fn quoted_details_are_written_as_debug_text() {
    assert_eq!(
        message(Error::InvalidKeyParameter("ring \"x\"".to_string())),
        "Invalid parameter for key generation: \"ring \\\"x\\\"\""
    );
    assert_eq!(
        message(Error::PackageArchiveMalformed("bad\nheader".to_string())),
        "Package archive was unreadable or contained unexpected contents: \"bad\\nheader\""
    );
}

#[test]
fn quoted_message_builders() {
    assert_eq!(key_parameter_message("\"k\""), "Invalid parameter for key generation: \"k\"");
    assert_eq!(
        malformed_archive_message("\"m\""),
        "Package archive was unreadable or contained unexpected contents: \"m\""
    );
}

#[test]
fn missing_binds_are_listed() {
    let binds = vec!["database".to_string(), "cache".to_string(), "queue".to_string()];
    assert_eq!(
        message(Error::MissingRequiredBind(binds)),
        "Missing required bind(s), database, cache, queue"
    );
    assert_eq!(message(Error::MissingRequiredBind(vec!["db".to_string()])), "Missing required bind(s), db");
    assert_eq!(message(Error::MissingRequiredBind(vec![])), "Missing required bind(s), ");
}

#[test]
fn join_places_the_separator_between_parts() {
    let parts = vec!["a".to_string(), "b".to_string(), "c".to_string()];
    assert_eq!(join(&parts, "--"), "a--b--c");
    assert_eq!(join(&vec!["only".to_string()], ", "), "only");
    assert_eq!(join(&vec![], ", "), "");
    assert_eq!(join(&vec!["".to_string(), "".to_string()], ","), ",");
}

#[test]
fn package_not_found_messages() {
    assert_eq!(
        message(Error::PackageNotFound(ident("core", "redis", Some("3.2.4"), Some("20170514150022")))),
        "Cannot find package: core/redis/3.2.4/20170514150022"
    );
    assert_eq!(
        message(Error::PackageNotFound(ident("core", "redis", Some("3.2.4"), None))),
        "Cannot find a release of package: core/redis/3.2.4"
    );
    assert_eq!(
        message(Error::PackageNotFound(ident("core", "redis", None, None))),
        "Cannot find a release of package: core/redis"
    );
    assert_eq!(
        message(Error::RemotePackageNotFound(ident("core", "redis", Some("3.2.4"), Some("20170514150022")))),
        "Cannot find package in any sources: core/redis/3.2.4/20170514150022"
    );
    assert_eq!(
        message(Error::RemotePackageNotFound(ident("core", "redis", None, None))),
        "Cannot find a release of package in any sources: core/redis"
    );
}

#[test]
fn package_ident_text_and_qualification() {
    let full = ident("core", "redis", Some("3.2.4"), Some("20170514150022"));
    assert!(full.fully_qualified());
    assert_eq!(full.to_string(), "core/redis/3.2.4/20170514150022");
    let versioned = ident("core", "redis", Some("3.2.4"), None);
    assert!(!versioned.fully_qualified());
    assert_eq!(versioned.to_string(), "core/redis/3.2.4");
    let release_only = ident("core", "redis", None, Some("20170514150022"));
    assert!(!release_only.fully_qualified());
    assert_eq!(release_only.to_string(), "core/redis");
}

#[test]
fn colored_message_is_bold_red() {
    let error = raised(Error::UnpackFailed);
    assert_eq!(error.colored_message(), "\u{1b}[1;31mFailed to unpack a package\u{1b}[0m");
    let error = raised(Error::Permissions(String::new()));
    assert_eq!(error.colored_message(), "\u{1b}[1;31m\u{1b}[0m");
}

#[test]
fn descriptions_of_own_kinds() {
    let c = || cause("d", "g", "cause description");
    let s = || "x".to_string();
    assert_eq!(description(Error::BadDataFile(s(), c())), "Unable to read or write to a data file");
    assert_eq!(description(Error::BadDataPath(s(), c())), "Unable to read or write to data directory");
    assert_eq!(description(Error::BadSpecsPath(s(), c())), "Unable to create the specs directory");
    assert_eq!(description(Error::ExecCommandNotFound(s())), "Exec command was not found on filesystem or in PATH");
    assert_eq!(description(Error::CommandNotImplemented), "Command is not yet implemented!");
    assert_eq!(description(Error::DbInvalidPath), "A bad filepath was provided for an internal datastore");
    assert_eq!(description(Error::FileNotFound(s())), "File not found");
    assert_eq!(description(Error::InvalidBinding(s())), "Invalid binding parameter");
    assert_eq!(description(Error::InvalidKeyParameter(s())), "Key parameter error");
    assert_eq!(description(Error::InvalidPort(c())), "Invalid port number in package expose metadata");
    assert_eq!(description(Error::InvalidPidFile), "Invalid child process PID file");
    assert_eq!(
        description(Error::InvalidServiceGroupString(s())),
        "Service group strings must be in service.group format (example: redis.default)"
    );
    assert_eq!(description(Error::InvalidTopology(s())), "Invalid topology");
    assert_eq!(description(Error::InvalidUpdateStrategy(s())), "Invalid update strategy");
    assert_eq!(description(Error::IPFailed), "Failed to discover the outbound IP address");
    assert_eq!(description(Error::KeyNotFound(s())), "Key not found in key cache");
    assert_eq!(
        description(Error::MissingRequiredBind(vec![s()])),
        "A service to start without specifying a service group for all required binds"
    );
    assert_eq!(description(Error::MissingRequiredIdent), "Missing required ident field: (example: ident = \"core/redis\")");
    assert_eq!(description(Error::MetaFileIO(c())), "MetaFile could not be read or written to");
    assert_eq!(description(Error::NetParseError(c())), "Can't parse IP:port");
    assert_eq!(description(Error::NameLookup(c())), "Error resolving a name or IP address");
    assert_eq!(
        description(Error::NoRunFile),
        "No run file is present for this package; specify a run hook or $pkg_svc_run in your plan"
    );
    assert_eq!(description(Error::NoProcessLock), "Unable to obtain a mutual exclusive process lock");
    assert_eq!(description(Error::NulError(c())), "An attempt was made to build a CString with a null byte inside it");
    assert_eq!(
        description(Error::PackageArchiveMalformed(s())),
        "Package archive was unreadable or had unexpected contents"
    );
    assert_eq!(description(Error::PackageNotFound(ident("a", "b", None, None))), "Cannot find a package");
    assert_eq!(description(Error::Permissions(s())), "File system permissions error");
    assert_eq!(
        description(Error::RemotePackageNotFound(ident("a", "b", None, None))),
        "Cannot find a package in any sources"
    );
    assert_eq!(description(Error::RootRequired), "Root or administrator permissions required to complete operation");
    assert_eq!(description(Error::ServiceSpecFileRead(s(), s())), "Service spec file could not be read successfully");
    assert_eq!(description(Error::ServiceSpecFileWrite(s(), s())), "Service spec file could not be written successfully");
    assert_eq!(description(Error::ServiceSpecParse(s())), "Service spec could not be parsed successfully");
    assert_eq!(description(Error::ServiceSpecRender(s())), "Service spec TOML could not be rendered successfully");
    assert_eq!(description(Error::SignalFailed), "Failed to send a signal to the child process");
    assert_eq!(description(Error::SignalNotifierStarted), "Only one instance of a Signal Notifier may be running");
    assert_eq!(description(Error::SpecWatcherDirNotFound(s())), "Spec directory not created or is not a directory");
    assert_eq!(description(Error::SpecWatcherGlob(c())), "Spec watcher file globbing error");
    assert_eq!(description(Error::SpecWatcherNotify(c())), "Spec watcher error");
    assert_eq!(description(Error::StrFromUtf8Error(c())), "Failed to convert a str from a &[u8] as UTF-8");
    assert_eq!(description(Error::StringFromUtf8Error(c())), "Failed to convert a string from a Vec<u8> as UTF-8");
    assert_eq!(description(Error::TomlEncode(c())), "Failed to encode toml!");
    assert_eq!(description(Error::TomlMergeError(s())), "Failed to merge TOML!");
    assert_eq!(description(Error::TomlParser(c())), "Failed to parse TOML!");
    assert_eq!(description(Error::TryRecvError(c())), "A channel failed to receive a response");
    assert_eq!(description(Error::UnpackFailed), "Failed to unpack a package");
}

#[test]
fn descriptions_passed_through_from_the_cause() {
    let c = || cause("d", "g", "cause description");
    assert_eq!(description(Error::ButterflyError(c())), "cause description");
    assert_eq!(description(Error::TemplateFileError(c())), "cause description");
    assert_eq!(description(Error::TemplateRenderError(c())), "cause description");
    assert_eq!(description(Error::HabitatCommon(c())), "cause description");
    assert_eq!(description(Error::HabitatCore(c())), "cause description");
    assert_eq!(description(Error::DepotClient(c())), "cause description");
    assert_eq!(description(Error::EnvJoinPathsError(c())), "cause description");
    assert_eq!(description(Error::Io(c())), "cause description");
}

#[test]
fn description_does_not_depend_on_details() {
    assert_eq!(
        description(Error::InvalidTopology("leader".to_string())),
        description(Error::InvalidTopology("standalone".to_string()))
    );
    assert_eq!(
        description(Error::BadDataFile("/a".to_string(), cause("x", "x", "x"))),
        description(Error::BadDataFile("/b".to_string(), cause("y", "y", "y")))
    );
}
