//! The Supervisor's errors: what went wrong, where the error was raised, and
//! the texts shown for it.
//!
//! Errors are of the type `SupError`, which holds an `Error` along with the
//! log key and the source location it was created at. Causes that come from
//! other libraries are carried as the texts those libraries give for them.

use vstd::prelude::*;
use vstd::string::*;

use crate::ident::{fully_qualified_spec, ident_text, PackageIdent};
use crate::paint::{paint_red_bold, red_bold};
use crate::quote::{quote, quoted_spec};
use crate::text::{join, join_spec, texts};

verus! {

/// The log key under which the Supervisor's errors are reported.
pub const LOGKEY: &'static str = "ER";

/// A cause raised by another library, held as the texts that library gives
/// for it: its `Display` text, its `Debug` text and its description.
#[derive(Debug)]
pub struct Cause {
    pub display: String,
    pub debug: String,
    pub description: String,
}

impl Cause {
    /// Builds a cause from its three texts.
    pub fn new(display: String, debug: String, description: String) -> (res: Cause)
        ensures
            res.display == display,
            res.debug == debug,
            res.description == description,
    {
        Cause { display, debug, description }
    }
}

/// All the kinds of errors the Supervisor produces.
#[derive(Debug)]
pub enum Error {
    BadDataFile(String, Cause),
    BadDataPath(String, Cause),
    BadSpecsPath(String, Cause),
    ButterflyError(Cause),
    CommandNotImplemented,
    DbInvalidPath,
    DepotClient(Cause),
    EnvJoinPathsError(Cause),
    ExecCommandNotFound(String),
    FileNotFound(String),
    HabitatCommon(Cause),
    HabitatCore(Cause),
    TemplateFileError(Cause),
    TemplateRenderError(Cause),
    InvalidBinding(String),
    InvalidKeyParameter(String),
    InvalidPidFile,
    InvalidPort(Cause),
    InvalidServiceGroupString(String),
    InvalidTopology(String),
    InvalidUpdateStrategy(String),
    Io(Cause),
    IPFailed,
    KeyNotFound(String),
    MetaFileIO(Cause),
    MissingRequiredBind(Vec<String>),
    MissingRequiredIdent,
    NameLookup(Cause),
    NetParseError(Cause),
    NoRunFile,
    NoProcessLock,
    NulError(Cause),
    PackageArchiveMalformed(String),
    PackageNotFound(PackageIdent),
    Permissions(String),
    RemotePackageNotFound(PackageIdent),
    RootRequired,
    ServiceSpecFileRead(String, String),
    ServiceSpecFileWrite(String, String),
    ServiceSpecParse(String),
    ServiceSpecRender(String),
    SignalFailed,
    SignalNotifierStarted,
    SpecWatcherDirNotFound(String),
    SpecWatcherGlob(Cause),
    SpecWatcherNotify(Cause),
    StrFromUtf8Error(Cause),
    StringFromUtf8Error(Cause),
    TomlEncode(Cause),
    TomlMergeError(String),
    TomlParser(Cause),
    TryRecvError(Cause),
    UnpackFailed,
}

/// The message shown for an error.
pub open spec fn message_spec(err: Error) -> Seq<char> {
    match err {
        Error::BadDataFile(path, err) => "Unable to read or write to data file, "@ + path@ + ", "@ + err.display@,
        Error::BadDataPath(path, err) => "Unable to read or write to data directory, "@ + path@ + ", "@ + err.display@,
        Error::BadSpecsPath(path, err) => "Unable to create the specs directory '"@ + path@ + "' ("@ + err.display@ + ")"@,
        Error::ButterflyError(err) => "Butterfly error: "@ + err.display@,
        Error::CommandNotImplemented => "Command is not yet implemented!"@,
        Error::DbInvalidPath => "Invalid filepath to internal datastore"@,
        Error::DepotClient(err) => err.display@,
        Error::EnvJoinPathsError(err) => err.display@,
        Error::ExecCommandNotFound(cmd) => "`"@ + cmd@ + "' was not found on the filesystem or in PATH"@,
        Error::FileNotFound(path) => "File not found at: "@ + path@,
        Error::HabitatCommon(err) => err.display@,
        Error::HabitatCore(err) => err.display@,
        Error::TemplateFileError(err) => err.debug@,
        Error::TemplateRenderError(err) => err.display@,
        Error::InvalidBinding(binding) => "Invalid binding \""@ + binding@ + "\", must be of the form <NAME>:<SERVICE_GROUP> where <NAME> is a service name and <SERVICE_GROUP> is a valid service group"@,
        Error::InvalidKeyParameter(param) => "Invalid parameter for key generation: "@ + quoted_spec(param@),
        Error::InvalidPidFile => "Invalid child process PID file"@,
        Error::InvalidPort(err) => "Invalid port number in package expose metadata: "@ + err.display@,
        Error::InvalidServiceGroupString(group) => "Invalid service group string: "@ + group@,
        Error::InvalidTopology(topology) => "Invalid topology: "@ + topology@,
        Error::InvalidUpdateStrategy(strategy) => "Invalid update strategy: "@ + strategy@,
        Error::Io(err) => err.display@,
        Error::IPFailed => "Failed to discover this hosts outbound IP address"@,
        Error::KeyNotFound(key) => "Key not found in key cache: "@ + key@,
        Error::MetaFileIO(err) => "IO error while accessing MetaFile: "@ + err.debug@,
        Error::MissingRequiredBind(binds) => "Missing required bind(s), "@ + join_spec(texts(binds@), ", "@),
        Error::MissingRequiredIdent => "Missing required ident field: (example: ident = \"core/redis\")"@,
        Error::NameLookup(err) => "Error resolving a name or IP address: "@ + err.display@,
        Error::NetParseError(err) => "Can't parse ip:port: "@ + err.display@,
        Error::NoRunFile => "No run file is present for this package; specify a run hook or $pkg_svc_run in your plan"@,
        Error::NoProcessLock => "Unable to obtain a mutually exclusive process lock. This typically happens if a previously running Supervisor was unable to cleanup `/hab/sup/default/LOCK` before terminating or if you are attempting to run multiple Supervisors. Running multiple Supervisors is not recommended, but can be done by setting a value for `--override-name`"@,
        Error::NulError(err) => err.display@,
        Error::PackageArchiveMalformed(details) => "Package archive was unreadable or contained unexpected contents: "@ + quoted_spec(details@),
        Error::PackageNotFound(ident) => if fully_qualified_spec(ident) { "Cannot find package: "@ + ident_text(ident) } else { "Cannot find a release of package: "@ + ident_text(ident) },
        Error::Permissions(details) => details@,
        Error::RemotePackageNotFound(ident) => if fully_qualified_spec(ident) { "Cannot find package in any sources: "@ + ident_text(ident) } else { "Cannot find a release of package in any sources: "@ + ident_text(ident) },
        Error::RootRequired => "Root or administrator permissions required to complete operation"@,
        Error::ServiceSpecFileRead(path, details) => "Service spec file '"@ + path@ + "' could not be read successfully: "@ + details@,
        Error::ServiceSpecFileWrite(path, details) => "Service spec file '"@ + path@ + "' could not be written successfully: "@ + details@,
        Error::ServiceSpecParse(details) => "Service spec could not be parsed successfully: "@ + details@,
        Error::ServiceSpecRender(details) => "Service spec TOML could not be rendered successfully: "@ + details@,
        Error::SignalFailed => "Failed to send a signal to the child process"@,
        Error::SignalNotifierStarted => "Only one instance of a Signal Notifier may be running"@,
        Error::SpecWatcherDirNotFound(path) => "Spec directory '"@ + path@ + "' not created or is not a directory"@,
        Error::SpecWatcherGlob(err) => err.display@,
        Error::SpecWatcherNotify(err) => err.display@,
        Error::StrFromUtf8Error(err) => err.display@,
        Error::StringFromUtf8Error(err) => err.display@,
        Error::TomlEncode(err) => "Failed to encode TOML: "@ + err.display@,
        Error::TomlMergeError(details) => "Failed to merge TOML: "@ + details@,
        Error::TomlParser(err) => "Failed to parse TOML: "@ + err.display@,
        Error::TryRecvError(err) => err.display@,
        Error::UnpackFailed => "Failed to unpack a package"@,
    }
}

/// The short description of an error: a fixed text for each kind, or the
/// description of the cause for the kinds that pass a cause through.
pub open spec fn description_spec(err: Error) -> Seq<char> {
    match err {
        Error::BadDataFile(_, _) => "Unable to read or write to a data file"@,
        Error::BadDataPath(_, _) => "Unable to read or write to data directory"@,
        Error::BadSpecsPath(_, _) => "Unable to create the specs directory"@,
        Error::ButterflyError(err) => err.description@,
        Error::CommandNotImplemented => "Command is not yet implemented!"@,
        Error::DbInvalidPath => "A bad filepath was provided for an internal datastore"@,
        Error::DepotClient(err) => err.description@,
        Error::EnvJoinPathsError(err) => err.description@,
        Error::ExecCommandNotFound(_) => "Exec command was not found on filesystem or in PATH"@,
        Error::FileNotFound(_) => "File not found"@,
        Error::HabitatCommon(err) => err.description@,
        Error::HabitatCore(err) => err.description@,
        Error::TemplateFileError(err) => err.description@,
        Error::TemplateRenderError(err) => err.description@,
        Error::InvalidBinding(_) => "Invalid binding parameter"@,
        Error::InvalidKeyParameter(_) => "Key parameter error"@,
        Error::InvalidPidFile => "Invalid child process PID file"@,
        Error::InvalidPort(_) => "Invalid port number in package expose metadata"@,
        Error::InvalidServiceGroupString(_) => "Service group strings must be in service.group format (example: redis.default)"@,
        Error::InvalidTopology(_) => "Invalid topology"@,
        Error::InvalidUpdateStrategy(_) => "Invalid update strategy"@,
        Error::Io(err) => err.description@,
        Error::IPFailed => "Failed to discover the outbound IP address"@,
        Error::KeyNotFound(_) => "Key not found in key cache"@,
        Error::MetaFileIO(_) => "MetaFile could not be read or written to"@,
        Error::MissingRequiredBind(_) => "A service to start without specifying a service group for all required binds"@,
        Error::MissingRequiredIdent => "Missing required ident field: (example: ident = \"core/redis\")"@,
        Error::NameLookup(_) => "Error resolving a name or IP address"@,
        Error::NetParseError(_) => "Can't parse IP:port"@,
        Error::NoRunFile => "No run file is present for this package; specify a run hook or $pkg_svc_run in your plan"@,
        Error::NoProcessLock => "Unable to obtain a mutual exclusive process lock"@,
        Error::NulError(_) => "An attempt was made to build a CString with a null byte inside it"@,
        Error::PackageArchiveMalformed(_) => "Package archive was unreadable or had unexpected contents"@,
        Error::PackageNotFound(_) => "Cannot find a package"@,
        Error::Permissions(_) => "File system permissions error"@,
        Error::RemotePackageNotFound(_) => "Cannot find a package in any sources"@,
        Error::RootRequired => "Root or administrator permissions required to complete operation"@,
        Error::ServiceSpecFileRead(_, _) => "Service spec file could not be read successfully"@,
        Error::ServiceSpecFileWrite(_, _) => "Service spec file could not be written successfully"@,
        Error::ServiceSpecParse(_) => "Service spec could not be parsed successfully"@,
        Error::ServiceSpecRender(_) => "Service spec TOML could not be rendered successfully"@,
        Error::SignalFailed => "Failed to send a signal to the child process"@,
        Error::SignalNotifierStarted => "Only one instance of a Signal Notifier may be running"@,
        Error::SpecWatcherDirNotFound(_) => "Spec directory not created or is not a directory"@,
        Error::SpecWatcherGlob(_) => "Spec watcher file globbing error"@,
        Error::SpecWatcherNotify(_) => "Spec watcher error"@,
        Error::StrFromUtf8Error(_) => "Failed to convert a str from a &[u8] as UTF-8"@,
        Error::StringFromUtf8Error(_) => "Failed to convert a string from a Vec<u8> as UTF-8"@,
        Error::TomlEncode(_) => "Failed to encode toml!"@,
        Error::TomlMergeError(_) => "Failed to merge TOML!"@,
        Error::TomlParser(_) => "Failed to parse TOML!"@,
        Error::TryRecvError(_) => "A channel failed to receive a response"@,
        Error::UnpackFailed => "Failed to unpack a package"@,
    }
}

/// Whether an error takes its description from its cause.
pub open spec fn describes_by_cause(err: Error) -> bool {
    match err {
        Error::ButterflyError(_) => true,
        Error::DepotClient(_) => true,
        Error::EnvJoinPathsError(_) => true,
        Error::HabitatCommon(_) => true,
        Error::HabitatCore(_) => true,
        Error::TemplateFileError(_) => true,
        Error::TemplateRenderError(_) => true,
        Error::Io(_) => true,
        _ => false,
    }
}

/// Whether two errors are of the same kind, whatever they carry.
pub open spec fn same_kind(a: Error, b: Error) -> bool {
    match (a, b) {
        (Error::BadDataFile(_, _), Error::BadDataFile(_, _)) => true,
        (Error::BadDataPath(_, _), Error::BadDataPath(_, _)) => true,
        (Error::BadSpecsPath(_, _), Error::BadSpecsPath(_, _)) => true,
        (Error::ButterflyError(_), Error::ButterflyError(_)) => true,
        (Error::CommandNotImplemented, Error::CommandNotImplemented) => true,
        (Error::DbInvalidPath, Error::DbInvalidPath) => true,
        (Error::DepotClient(_), Error::DepotClient(_)) => true,
        (Error::EnvJoinPathsError(_), Error::EnvJoinPathsError(_)) => true,
        (Error::ExecCommandNotFound(_), Error::ExecCommandNotFound(_)) => true,
        (Error::FileNotFound(_), Error::FileNotFound(_)) => true,
        (Error::HabitatCommon(_), Error::HabitatCommon(_)) => true,
        (Error::HabitatCore(_), Error::HabitatCore(_)) => true,
        (Error::TemplateFileError(_), Error::TemplateFileError(_)) => true,
        (Error::TemplateRenderError(_), Error::TemplateRenderError(_)) => true,
        (Error::InvalidBinding(_), Error::InvalidBinding(_)) => true,
        (Error::InvalidKeyParameter(_), Error::InvalidKeyParameter(_)) => true,
        (Error::InvalidPidFile, Error::InvalidPidFile) => true,
        (Error::InvalidPort(_), Error::InvalidPort(_)) => true,
        (Error::InvalidServiceGroupString(_), Error::InvalidServiceGroupString(_)) => true,
        (Error::InvalidTopology(_), Error::InvalidTopology(_)) => true,
        (Error::InvalidUpdateStrategy(_), Error::InvalidUpdateStrategy(_)) => true,
        (Error::Io(_), Error::Io(_)) => true,
        (Error::IPFailed, Error::IPFailed) => true,
        (Error::KeyNotFound(_), Error::KeyNotFound(_)) => true,
        (Error::MetaFileIO(_), Error::MetaFileIO(_)) => true,
        (Error::MissingRequiredBind(_), Error::MissingRequiredBind(_)) => true,
        (Error::MissingRequiredIdent, Error::MissingRequiredIdent) => true,
        (Error::NameLookup(_), Error::NameLookup(_)) => true,
        (Error::NetParseError(_), Error::NetParseError(_)) => true,
        (Error::NoRunFile, Error::NoRunFile) => true,
        (Error::NoProcessLock, Error::NoProcessLock) => true,
        (Error::NulError(_), Error::NulError(_)) => true,
        (Error::PackageArchiveMalformed(_), Error::PackageArchiveMalformed(_)) => true,
        (Error::PackageNotFound(_), Error::PackageNotFound(_)) => true,
        (Error::Permissions(_), Error::Permissions(_)) => true,
        (Error::RemotePackageNotFound(_), Error::RemotePackageNotFound(_)) => true,
        (Error::RootRequired, Error::RootRequired) => true,
        (Error::ServiceSpecFileRead(_, _), Error::ServiceSpecFileRead(_, _)) => true,
        (Error::ServiceSpecFileWrite(_, _), Error::ServiceSpecFileWrite(_, _)) => true,
        (Error::ServiceSpecParse(_), Error::ServiceSpecParse(_)) => true,
        (Error::ServiceSpecRender(_), Error::ServiceSpecRender(_)) => true,
        (Error::SignalFailed, Error::SignalFailed) => true,
        (Error::SignalNotifierStarted, Error::SignalNotifierStarted) => true,
        (Error::SpecWatcherDirNotFound(_), Error::SpecWatcherDirNotFound(_)) => true,
        (Error::SpecWatcherGlob(_), Error::SpecWatcherGlob(_)) => true,
        (Error::SpecWatcherNotify(_), Error::SpecWatcherNotify(_)) => true,
        (Error::StrFromUtf8Error(_), Error::StrFromUtf8Error(_)) => true,
        (Error::StringFromUtf8Error(_), Error::StringFromUtf8Error(_)) => true,
        (Error::TomlEncode(_), Error::TomlEncode(_)) => true,
        (Error::TomlMergeError(_), Error::TomlMergeError(_)) => true,
        (Error::TomlParser(_), Error::TomlParser(_)) => true,
        (Error::TryRecvError(_), Error::TryRecvError(_)) => true,
        (Error::UnpackFailed, Error::UnpackFailed) => true,
        _ => false,
    }
}

/// The description of an error depends only on its kind, not on what it
/// carries, except for the kinds that take their description from the cause.
pub proof fn description_depends_only_on_kind(a: Error, b: Error)
    requires
        same_kind(a, b),
        !describes_by_cause(a),
    ensures
        description_spec(a) == description_spec(b),
{
}

/// The message of every kind of error, written out: the kind's fixed text
/// with the whole of each path, detail and cause text it carries, and for a
/// package that cannot be found, the shorter wording exactly when the
/// identifier has both a version and a release.
pub proof fn message_texts(e: Error)
    ensures
        match e {
            Error::BadDataFile(path, err) => message_spec(e) == ("Unable to read or write to data file, "@ + path@ + ", "@ + err.display@),
            Error::BadDataPath(path, err) => message_spec(e) == ("Unable to read or write to data directory, "@ + path@ + ", "@ + err.display@),
            Error::BadSpecsPath(path, err) => message_spec(e) == ("Unable to create the specs directory '"@ + path@ + "' ("@ + err.display@ + ")"@),
            Error::ButterflyError(err) => message_spec(e) == ("Butterfly error: "@ + err.display@),
            Error::CommandNotImplemented => message_spec(e) == ("Command is not yet implemented!"@),
            Error::DbInvalidPath => message_spec(e) == ("Invalid filepath to internal datastore"@),
            Error::DepotClient(err) => message_spec(e) == (err.display@),
            Error::EnvJoinPathsError(err) => message_spec(e) == (err.display@),
            Error::ExecCommandNotFound(cmd) => message_spec(e) == ("`"@ + cmd@ + "' was not found on the filesystem or in PATH"@),
            Error::FileNotFound(path) => message_spec(e) == ("File not found at: "@ + path@),
            Error::HabitatCommon(err) => message_spec(e) == (err.display@),
            Error::HabitatCore(err) => message_spec(e) == (err.display@),
            Error::TemplateFileError(err) => message_spec(e) == (err.debug@),
            Error::TemplateRenderError(err) => message_spec(e) == (err.display@),
            Error::InvalidBinding(binding) => message_spec(e) == ("Invalid binding \""@ + binding@ + "\", must be of the form <NAME>:<SERVICE_GROUP> where <NAME> is a service name and <SERVICE_GROUP> is a valid service group"@),
            Error::InvalidKeyParameter(param) => message_spec(e) == ("Invalid parameter for key generation: "@ + quoted_spec(param@)),
            Error::InvalidPidFile => message_spec(e) == ("Invalid child process PID file"@),
            Error::InvalidPort(err) => message_spec(e) == ("Invalid port number in package expose metadata: "@ + err.display@),
            Error::InvalidServiceGroupString(group) => message_spec(e) == ("Invalid service group string: "@ + group@),
            Error::InvalidTopology(topology) => message_spec(e) == ("Invalid topology: "@ + topology@),
            Error::InvalidUpdateStrategy(strategy) => message_spec(e) == ("Invalid update strategy: "@ + strategy@),
            Error::Io(err) => message_spec(e) == (err.display@),
            Error::IPFailed => message_spec(e) == ("Failed to discover this hosts outbound IP address"@),
            Error::KeyNotFound(key) => message_spec(e) == ("Key not found in key cache: "@ + key@),
            Error::MetaFileIO(err) => message_spec(e) == ("IO error while accessing MetaFile: "@ + err.debug@),
            Error::MissingRequiredBind(binds) => message_spec(e) == ("Missing required bind(s), "@ + join_spec(texts(binds@), ", "@)),
            Error::MissingRequiredIdent => message_spec(e) == ("Missing required ident field: (example: ident = \"core/redis\")"@),
            Error::NameLookup(err) => message_spec(e) == ("Error resolving a name or IP address: "@ + err.display@),
            Error::NetParseError(err) => message_spec(e) == ("Can't parse ip:port: "@ + err.display@),
            Error::NoRunFile => message_spec(e) == ("No run file is present for this package; specify a run hook or $pkg_svc_run in your plan"@),
            Error::NoProcessLock => message_spec(e) == ("Unable to obtain a mutually exclusive process lock. This typically happens if a previously running Supervisor was unable to cleanup `/hab/sup/default/LOCK` before terminating or if you are attempting to run multiple Supervisors. Running multiple Supervisors is not recommended, but can be done by setting a value for `--override-name`"@),
            Error::NulError(err) => message_spec(e) == (err.display@),
            Error::PackageArchiveMalformed(details) => message_spec(e) == ("Package archive was unreadable or contained unexpected contents: "@ + quoted_spec(details@)),
            Error::PackageNotFound(ident) => message_spec(e) == (if (ident.version is Some && ident.release is Some) { "Cannot find package: "@ + ident_text(ident) } else { "Cannot find a release of package: "@ + ident_text(ident) }),
            Error::Permissions(details) => message_spec(e) == (details@),
            Error::RemotePackageNotFound(ident) => message_spec(e) == (if (ident.version is Some && ident.release is Some) { "Cannot find package in any sources: "@ + ident_text(ident) } else { "Cannot find a release of package in any sources: "@ + ident_text(ident) }),
            Error::RootRequired => message_spec(e) == ("Root or administrator permissions required to complete operation"@),
            Error::ServiceSpecFileRead(path, details) => message_spec(e) == ("Service spec file '"@ + path@ + "' could not be read successfully: "@ + details@),
            Error::ServiceSpecFileWrite(path, details) => message_spec(e) == ("Service spec file '"@ + path@ + "' could not be written successfully: "@ + details@),
            Error::ServiceSpecParse(details) => message_spec(e) == ("Service spec could not be parsed successfully: "@ + details@),
            Error::ServiceSpecRender(details) => message_spec(e) == ("Service spec TOML could not be rendered successfully: "@ + details@),
            Error::SignalFailed => message_spec(e) == ("Failed to send a signal to the child process"@),
            Error::SignalNotifierStarted => message_spec(e) == ("Only one instance of a Signal Notifier may be running"@),
            Error::SpecWatcherDirNotFound(path) => message_spec(e) == ("Spec directory '"@ + path@ + "' not created or is not a directory"@),
            Error::SpecWatcherGlob(err) => message_spec(e) == (err.display@),
            Error::SpecWatcherNotify(err) => message_spec(e) == (err.display@),
            Error::StrFromUtf8Error(err) => message_spec(e) == (err.display@),
            Error::StringFromUtf8Error(err) => message_spec(e) == (err.display@),
            Error::TomlEncode(err) => message_spec(e) == ("Failed to encode TOML: "@ + err.display@),
            Error::TomlMergeError(details) => message_spec(e) == ("Failed to merge TOML: "@ + details@),
            Error::TomlParser(err) => message_spec(e) == ("Failed to parse TOML: "@ + err.display@),
            Error::TryRecvError(err) => message_spec(e) == (err.display@),
            Error::UnpackFailed => message_spec(e) == ("Failed to unpack a package"@),
        },
{
}

/// The description of every kind of error, written out: a fixed text, or
/// the whole description of the cause for the kinds that pass it through.
pub proof fn description_texts(e: Error)
    ensures
        match e {
            Error::BadDataFile(_, _) => description_spec(e) == "Unable to read or write to a data file"@,
            Error::BadDataPath(_, _) => description_spec(e) == "Unable to read or write to data directory"@,
            Error::BadSpecsPath(_, _) => description_spec(e) == "Unable to create the specs directory"@,
            Error::ButterflyError(err) => description_spec(e) == err.description@,
            Error::CommandNotImplemented => description_spec(e) == "Command is not yet implemented!"@,
            Error::DbInvalidPath => description_spec(e) == "A bad filepath was provided for an internal datastore"@,
            Error::DepotClient(err) => description_spec(e) == err.description@,
            Error::EnvJoinPathsError(err) => description_spec(e) == err.description@,
            Error::ExecCommandNotFound(_) => description_spec(e) == "Exec command was not found on filesystem or in PATH"@,
            Error::FileNotFound(_) => description_spec(e) == "File not found"@,
            Error::HabitatCommon(err) => description_spec(e) == err.description@,
            Error::HabitatCore(err) => description_spec(e) == err.description@,
            Error::TemplateFileError(err) => description_spec(e) == err.description@,
            Error::TemplateRenderError(err) => description_spec(e) == err.description@,
            Error::InvalidBinding(_) => description_spec(e) == "Invalid binding parameter"@,
            Error::InvalidKeyParameter(_) => description_spec(e) == "Key parameter error"@,
            Error::InvalidPidFile => description_spec(e) == "Invalid child process PID file"@,
            Error::InvalidPort(_) => description_spec(e) == "Invalid port number in package expose metadata"@,
            Error::InvalidServiceGroupString(_) => description_spec(e) == "Service group strings must be in service.group format (example: redis.default)"@,
            Error::InvalidTopology(_) => description_spec(e) == "Invalid topology"@,
            Error::InvalidUpdateStrategy(_) => description_spec(e) == "Invalid update strategy"@,
            Error::Io(err) => description_spec(e) == err.description@,
            Error::IPFailed => description_spec(e) == "Failed to discover the outbound IP address"@,
            Error::KeyNotFound(_) => description_spec(e) == "Key not found in key cache"@,
            Error::MetaFileIO(_) => description_spec(e) == "MetaFile could not be read or written to"@,
            Error::MissingRequiredBind(_) => description_spec(e) == "A service to start without specifying a service group for all required binds"@,
            Error::MissingRequiredIdent => description_spec(e) == "Missing required ident field: (example: ident = \"core/redis\")"@,
            Error::NameLookup(_) => description_spec(e) == "Error resolving a name or IP address"@,
            Error::NetParseError(_) => description_spec(e) == "Can't parse IP:port"@,
            Error::NoRunFile => description_spec(e) == "No run file is present for this package; specify a run hook or $pkg_svc_run in your plan"@,
            Error::NoProcessLock => description_spec(e) == "Unable to obtain a mutual exclusive process lock"@,
            Error::NulError(_) => description_spec(e) == "An attempt was made to build a CString with a null byte inside it"@,
            Error::PackageArchiveMalformed(_) => description_spec(e) == "Package archive was unreadable or had unexpected contents"@,
            Error::PackageNotFound(_) => description_spec(e) == "Cannot find a package"@,
            Error::Permissions(_) => description_spec(e) == "File system permissions error"@,
            Error::RemotePackageNotFound(_) => description_spec(e) == "Cannot find a package in any sources"@,
            Error::RootRequired => description_spec(e) == "Root or administrator permissions required to complete operation"@,
            Error::ServiceSpecFileRead(_, _) => description_spec(e) == "Service spec file could not be read successfully"@,
            Error::ServiceSpecFileWrite(_, _) => description_spec(e) == "Service spec file could not be written successfully"@,
            Error::ServiceSpecParse(_) => description_spec(e) == "Service spec could not be parsed successfully"@,
            Error::ServiceSpecRender(_) => description_spec(e) == "Service spec TOML could not be rendered successfully"@,
            Error::SignalFailed => description_spec(e) == "Failed to send a signal to the child process"@,
            Error::SignalNotifierStarted => description_spec(e) == "Only one instance of a Signal Notifier may be running"@,
            Error::SpecWatcherDirNotFound(_) => description_spec(e) == "Spec directory not created or is not a directory"@,
            Error::SpecWatcherGlob(_) => description_spec(e) == "Spec watcher file globbing error"@,
            Error::SpecWatcherNotify(_) => description_spec(e) == "Spec watcher error"@,
            Error::StrFromUtf8Error(_) => description_spec(e) == "Failed to convert a str from a &[u8] as UTF-8"@,
            Error::StringFromUtf8Error(_) => description_spec(e) == "Failed to convert a string from a Vec<u8> as UTF-8"@,
            Error::TomlEncode(_) => description_spec(e) == "Failed to encode toml!"@,
            Error::TomlMergeError(_) => description_spec(e) == "Failed to merge TOML!"@,
            Error::TomlParser(_) => description_spec(e) == "Failed to parse TOML!"@,
            Error::TryRecvError(_) => description_spec(e) == "A channel failed to receive a response"@,
            Error::UnpackFailed => description_spec(e) == "Failed to unpack a package"@,
        },
{
}

/// A package that cannot be found, locally or in any source, is reported
/// with the shorter wording exactly when its identifier has both a version
/// and a release; otherwise it is reported as a missing release.
pub proof fn package_not_found_wording(id: PackageIdent)
    ensures
        id.version is Some && id.release is Some ==> {
            &&& message_spec(Error::PackageNotFound(id)) == "Cannot find package: "@ + ident_text(id)
            &&& message_spec(Error::RemotePackageNotFound(id)) == "Cannot find package in any sources: "@ + ident_text(id)
        },
        !(id.version is Some && id.release is Some) ==> {
            &&& message_spec(Error::PackageNotFound(id)) == "Cannot find a release of package: "@ + ident_text(id)
            &&& message_spec(Error::RemotePackageNotFound(id))
                == "Cannot find a release of package in any sources: "@ + ident_text(id)
        },
{
}

/// The message for a key parameter that was refused, given the parameter as
/// `{:?}` writes it.
pub fn key_parameter_message(quoted: &str) -> (res: String)
    ensures
        res@ == "Invalid parameter for key generation: "@ + quoted@,
{
    let mut s = String::from_str("Invalid parameter for key generation: ");
    s.append(quoted);
    s
}

/// The message for a package archive that could not be read, given the
/// details as `{:?}` writes them.
pub fn malformed_archive_message(quoted: &str) -> (res: String)
    ensures
        res@ == "Package archive was unreadable or contained unexpected contents: "@ + quoted@,
{
    let mut s = String::from_str("Package archive was unreadable or contained unexpected contents: ");
    s.append(quoted);
    s
}

/// An error of the Supervisor: the kind of error, and the log key and the
/// source location it was created at.
#[derive(Debug)]
pub struct SupError {
    pub err: Error,
    logkey: &'static str,
    file: &'static str,
    line: u32,
    column: u32,
}

impl SupError {
    /// The kind of error.
    pub closed spec fn err_spec(&self) -> Error {
        self.err
    }

    /// The log key the error was created with.
    pub closed spec fn logkey_spec(&self) -> Seq<char> {
        self.logkey@
    }

    /// The source file the error was created in.
    pub closed spec fn file_spec(&self) -> Seq<char> {
        self.file@
    }

    /// The source line the error was created at.
    pub closed spec fn line_spec(&self) -> u32 {
        self.line
    }

    /// The source column the error was created at.
    pub closed spec fn column_spec(&self) -> u32 {
        self.column
    }

    /// Creates a new `SupError` from the error and the place it was raised at.
    pub fn new(err: Error, logkey: &'static str, file: &'static str, line: u32, column: u32) -> (res: SupError)
        ensures
            res.err_spec() == err,
            res.logkey_spec() == logkey@,
            res.file_spec() == file@,
            res.line_spec() == line,
            res.column_spec() == column,
    {
        SupError { err: err, logkey: logkey, file: file, line: line, column: column }
    }

    /// Creates a `SupError` under the Supervisor's own log key, `LOGKEY`.
    pub fn raised_at(err: Error, file: &'static str, line: u32, column: u32) -> (res: SupError)
        ensures
            res.err_spec() == err,
            res.logkey_spec() == LOGKEY@,
            res.file_spec() == file@,
            res.line_spec() == line,
            res.column_spec() == column,
    {
        SupError::new(err, LOGKEY, file, line, column)
    }

    /// The log key the error was created with.
    pub fn logkey(&self) -> (res: &'static str)
        ensures
            res@ == self.logkey_spec(),
    {
        self.logkey
    }

    /// The source file the error was created in.
    pub fn file(&self) -> (res: &'static str)
        ensures
            res@ == self.file_spec(),
    {
        self.file
    }

    /// The source line the error was created at.
    pub fn line(&self) -> (res: u32)
        ensures
            res == self.line_spec(),
    {
        self.line
    }

    /// The source column the error was created at.
    pub fn column(&self) -> (res: u32)
        ensures
            res == self.column_spec(),
    {
        self.column
    }

    /// The message shown for the error.
    pub fn message(&self) -> (res: String)
        ensures
            res@ == message_spec(self.err_spec()),
    {
        match &self.err {
            Error::BadDataFile(path, err) => {
                let mut s = String::from_str("Unable to read or write to data file, ");
                s.append(path.as_str());
                s.append(", ");
                s.append(err.display.as_str());
                s
            },
            Error::BadDataPath(path, err) => {
                let mut s = String::from_str("Unable to read or write to data directory, ");
                s.append(path.as_str());
                s.append(", ");
                s.append(err.display.as_str());
                s
            },
            Error::BadSpecsPath(path, err) => {
                let mut s = String::from_str("Unable to create the specs directory '");
                s.append(path.as_str());
                s.append("' (");
                s.append(err.display.as_str());
                s.append(")");
                s
            },
            Error::ButterflyError(err) => {
                let mut s = String::from_str("Butterfly error: ");
                s.append(err.display.as_str());
                s
            },
            Error::CommandNotImplemented => {
                let mut s = String::from_str("Command is not yet implemented!");
                s
            },
            Error::DbInvalidPath => {
                let mut s = String::from_str("Invalid filepath to internal datastore");
                s
            },
            Error::DepotClient(err) => {
                let mut s = String::from_str(err.display.as_str());
                s
            },
            Error::EnvJoinPathsError(err) => {
                let mut s = String::from_str(err.display.as_str());
                s
            },
            Error::ExecCommandNotFound(cmd) => {
                let mut s = String::from_str("`");
                s.append(cmd.as_str());
                s.append("' was not found on the filesystem or in PATH");
                s
            },
            Error::FileNotFound(path) => {
                let mut s = String::from_str("File not found at: ");
                s.append(path.as_str());
                s
            },
            Error::HabitatCommon(err) => {
                let mut s = String::from_str(err.display.as_str());
                s
            },
            Error::HabitatCore(err) => {
                let mut s = String::from_str(err.display.as_str());
                s
            },
            Error::TemplateFileError(err) => {
                let mut s = String::from_str(err.debug.as_str());
                s
            },
            Error::TemplateRenderError(err) => {
                let mut s = String::from_str(err.display.as_str());
                s
            },
            Error::InvalidBinding(binding) => {
                let mut s = String::from_str("Invalid binding \"");
                s.append(binding.as_str());
                s.append("\", must be of the form <NAME>:<SERVICE_GROUP> where <NAME> is a service name and <SERVICE_GROUP> is a valid service group");
                s
            },
            Error::InvalidKeyParameter(param) => {
                let quoted = quote(param.as_str());
                key_parameter_message(quoted.as_str())
            },
            Error::InvalidPidFile => {
                let mut s = String::from_str("Invalid child process PID file");
                s
            },
            Error::InvalidPort(err) => {
                let mut s = String::from_str("Invalid port number in package expose metadata: ");
                s.append(err.display.as_str());
                s
            },
            Error::InvalidServiceGroupString(group) => {
                let mut s = String::from_str("Invalid service group string: ");
                s.append(group.as_str());
                s
            },
            Error::InvalidTopology(topology) => {
                let mut s = String::from_str("Invalid topology: ");
                s.append(topology.as_str());
                s
            },
            Error::InvalidUpdateStrategy(strategy) => {
                let mut s = String::from_str("Invalid update strategy: ");
                s.append(strategy.as_str());
                s
            },
            Error::Io(err) => {
                let mut s = String::from_str(err.display.as_str());
                s
            },
            Error::IPFailed => {
                let mut s = String::from_str("Failed to discover this hosts outbound IP address");
                s
            },
            Error::KeyNotFound(key) => {
                let mut s = String::from_str("Key not found in key cache: ");
                s.append(key.as_str());
                s
            },
            Error::MetaFileIO(err) => {
                let mut s = String::from_str("IO error while accessing MetaFile: ");
                s.append(err.debug.as_str());
                s
            },
            Error::MissingRequiredBind(binds) => {
                let listed = join(binds, ", ");
                let mut s = String::from_str("Missing required bind(s), ");
                s.append(listed.as_str());
                s
            },
            Error::MissingRequiredIdent => {
                let mut s = String::from_str("Missing required ident field: (example: ident = \"core/redis\")");
                s
            },
            Error::NameLookup(err) => {
                let mut s = String::from_str("Error resolving a name or IP address: ");
                s.append(err.display.as_str());
                s
            },
            Error::NetParseError(err) => {
                let mut s = String::from_str("Can't parse ip:port: ");
                s.append(err.display.as_str());
                s
            },
            Error::NoRunFile => {
                let mut s = String::from_str("No run file is present for this package; specify a run hook or $pkg_svc_run in your plan");
                s
            },
            Error::NoProcessLock => {
                let mut s = String::from_str("Unable to obtain a mutually exclusive process lock. This typically happens if a previously running Supervisor was unable to cleanup `/hab/sup/default/LOCK` before terminating or if you are attempting to run multiple Supervisors. Running multiple Supervisors is not recommended, but can be done by setting a value for `--override-name`");
                s
            },
            Error::NulError(err) => {
                let mut s = String::from_str(err.display.as_str());
                s
            },
            Error::PackageArchiveMalformed(details) => {
                let quoted = quote(details.as_str());
                malformed_archive_message(quoted.as_str())
            },
            Error::PackageNotFound(ident) => {
                let shown = ident.to_string();
                let mut s = if ident.fully_qualified() {
                    String::from_str("Cannot find package: ")
                } else {
                    String::from_str("Cannot find a release of package: ")
                };
                s.append(shown.as_str());
                s
            },
            Error::Permissions(details) => {
                let mut s = String::from_str(details.as_str());
                s
            },
            Error::RemotePackageNotFound(ident) => {
                let shown = ident.to_string();
                let mut s = if ident.fully_qualified() {
                    String::from_str("Cannot find package in any sources: ")
                } else {
                    String::from_str("Cannot find a release of package in any sources: ")
                };
                s.append(shown.as_str());
                s
            },
            Error::RootRequired => {
                let mut s = String::from_str("Root or administrator permissions required to complete operation");
                s
            },
            Error::ServiceSpecFileRead(path, details) => {
                let mut s = String::from_str("Service spec file '");
                s.append(path.as_str());
                s.append("' could not be read successfully: ");
                s.append(details.as_str());
                s
            },
            Error::ServiceSpecFileWrite(path, details) => {
                let mut s = String::from_str("Service spec file '");
                s.append(path.as_str());
                s.append("' could not be written successfully: ");
                s.append(details.as_str());
                s
            },
            Error::ServiceSpecParse(details) => {
                let mut s = String::from_str("Service spec could not be parsed successfully: ");
                s.append(details.as_str());
                s
            },
            Error::ServiceSpecRender(details) => {
                let mut s = String::from_str("Service spec TOML could not be rendered successfully: ");
                s.append(details.as_str());
                s
            },
            Error::SignalFailed => {
                let mut s = String::from_str("Failed to send a signal to the child process");
                s
            },
            Error::SignalNotifierStarted => {
                let mut s = String::from_str("Only one instance of a Signal Notifier may be running");
                s
            },
            Error::SpecWatcherDirNotFound(path) => {
                let mut s = String::from_str("Spec directory '");
                s.append(path.as_str());
                s.append("' not created or is not a directory");
                s
            },
            Error::SpecWatcherGlob(err) => {
                let mut s = String::from_str(err.display.as_str());
                s
            },
            Error::SpecWatcherNotify(err) => {
                let mut s = String::from_str(err.display.as_str());
                s
            },
            Error::StrFromUtf8Error(err) => {
                let mut s = String::from_str(err.display.as_str());
                s
            },
            Error::StringFromUtf8Error(err) => {
                let mut s = String::from_str(err.display.as_str());
                s
            },
            Error::TomlEncode(err) => {
                let mut s = String::from_str("Failed to encode TOML: ");
                s.append(err.display.as_str());
                s
            },
            Error::TomlMergeError(details) => {
                let mut s = String::from_str("Failed to merge TOML: ");
                s.append(details.as_str());
                s
            },
            Error::TomlParser(err) => {
                let mut s = String::from_str("Failed to parse TOML: ");
                s.append(err.display.as_str());
                s
            },
            Error::TryRecvError(err) => {
                let mut s = String::from_str(err.display.as_str());
                s
            },
            Error::UnpackFailed => {
                let mut s = String::from_str("Failed to unpack a package");
                s
            },
        }
    }

    /// The message shown for the error, painted bold red for the terminal.
    pub fn colored_message(&self) -> (res: String)
        ensures
            res@ == red_bold(message_spec(self.err_spec())),
    {
        let content = self.message();
        paint_red_bold(content.as_str())
    }

    /// The short description of the error.
    pub fn description(&self) -> (res: &str)
        ensures
            res@ == description_spec(self.err_spec()),
    {
        match &self.err {
            Error::BadDataFile(_, _) => "Unable to read or write to a data file",
            Error::BadDataPath(_, _) => "Unable to read or write to data directory",
            Error::BadSpecsPath(_, _) => "Unable to create the specs directory",
            Error::ButterflyError(err) => err.description.as_str(),
            Error::CommandNotImplemented => "Command is not yet implemented!",
            Error::DbInvalidPath => "A bad filepath was provided for an internal datastore",
            Error::DepotClient(err) => err.description.as_str(),
            Error::EnvJoinPathsError(err) => err.description.as_str(),
            Error::ExecCommandNotFound(_) => "Exec command was not found on filesystem or in PATH",
            Error::FileNotFound(_) => "File not found",
            Error::HabitatCommon(err) => err.description.as_str(),
            Error::HabitatCore(err) => err.description.as_str(),
            Error::TemplateFileError(err) => err.description.as_str(),
            Error::TemplateRenderError(err) => err.description.as_str(),
            Error::InvalidBinding(_) => "Invalid binding parameter",
            Error::InvalidKeyParameter(_) => "Key parameter error",
            Error::InvalidPidFile => "Invalid child process PID file",
            Error::InvalidPort(_) => "Invalid port number in package expose metadata",
            Error::InvalidServiceGroupString(_) => "Service group strings must be in service.group format (example: redis.default)",
            Error::InvalidTopology(_) => "Invalid topology",
            Error::InvalidUpdateStrategy(_) => "Invalid update strategy",
            Error::Io(err) => err.description.as_str(),
            Error::IPFailed => "Failed to discover the outbound IP address",
            Error::KeyNotFound(_) => "Key not found in key cache",
            Error::MetaFileIO(_) => "MetaFile could not be read or written to",
            Error::MissingRequiredBind(_) => "A service to start without specifying a service group for all required binds",
            Error::MissingRequiredIdent => "Missing required ident field: (example: ident = \"core/redis\")",
            Error::NameLookup(_) => "Error resolving a name or IP address",
            Error::NetParseError(_) => "Can't parse IP:port",
            Error::NoRunFile => "No run file is present for this package; specify a run hook or $pkg_svc_run in your plan",
            Error::NoProcessLock => "Unable to obtain a mutual exclusive process lock",
            Error::NulError(_) => "An attempt was made to build a CString with a null byte inside it",
            Error::PackageArchiveMalformed(_) => "Package archive was unreadable or had unexpected contents",
            Error::PackageNotFound(_) => "Cannot find a package",
            Error::Permissions(_) => "File system permissions error",
            Error::RemotePackageNotFound(_) => "Cannot find a package in any sources",
            Error::RootRequired => "Root or administrator permissions required to complete operation",
            Error::ServiceSpecFileRead(_, _) => "Service spec file could not be read successfully",
            Error::ServiceSpecFileWrite(_, _) => "Service spec file could not be written successfully",
            Error::ServiceSpecParse(_) => "Service spec could not be parsed successfully",
            Error::ServiceSpecRender(_) => "Service spec TOML could not be rendered successfully",
            Error::SignalFailed => "Failed to send a signal to the child process",
            Error::SignalNotifierStarted => "Only one instance of a Signal Notifier may be running",
            Error::SpecWatcherDirNotFound(_) => "Spec directory not created or is not a directory",
            Error::SpecWatcherGlob(_) => "Spec watcher file globbing error",
            Error::SpecWatcherNotify(_) => "Spec watcher error",
            Error::StrFromUtf8Error(_) => "Failed to convert a str from a &[u8] as UTF-8",
            Error::StringFromUtf8Error(_) => "Failed to convert a string from a Vec<u8> as UTF-8",
            Error::TomlEncode(_) => "Failed to encode toml!",
            Error::TomlMergeError(_) => "Failed to merge TOML!",
            Error::TomlParser(_) => "Failed to parse TOML!",
            Error::TryRecvError(_) => "A channel failed to receive a response",
            Error::UnpackFailed => "Failed to unpack a package",
        }
    }
}

} // verus!
