//! Values of the service ABI: the enumerations carried in IPC words and the
//! message tags of every service protocol, each with the word that carries it.
use vstd::prelude::*;

verus! {

/// A system service addressed through the bootstrap registry.
#[derive(Clone, Copy, Debug, PartialEq, Eq, Structural)]
pub enum ServiceId {
    RootManager,
    Storage,
    Console,
    Config,
    Log,
    Status,
    Shell,
    Package,
    Announce,
    Network,
    Graphics,
    Session,
    DesktopShell,
    Terminal,
    Audio,
    Runtime,
    Developer,
    Clipboard,
    Security,
    SetupWizard,
}

impl ServiceId {
    /// The word that carries this value on the wire.
    pub open spec fn spec_code(self) -> u32 {
        match self {
            ServiceId::RootManager => 0,
            ServiceId::Storage => 1,
            ServiceId::Console => 2,
            ServiceId::Config => 3,
            ServiceId::Log => 4,
            ServiceId::Status => 5,
            ServiceId::Shell => 6,
            ServiceId::Package => 7,
            ServiceId::Announce => 8,
            ServiceId::Network => 9,
            ServiceId::Graphics => 10,
            ServiceId::Session => 11,
            ServiceId::DesktopShell => 12,
            ServiceId::Terminal => 13,
            ServiceId::Audio => 14,
            ServiceId::Runtime => 15,
            ServiceId::Developer => 16,
            ServiceId::Clipboard => 17,
            ServiceId::Security => 18,
            ServiceId::SetupWizard => 19,
        }
    }

    /// The word that carries this value on the wire.
    #[verifier::when_used_as_spec(spec_code)]
    pub fn code(self) -> (c: u32)
        ensures
            c == self.spec_code(),
    {
        match self {
            ServiceId::RootManager => 0,
            ServiceId::Storage => 1,
            ServiceId::Console => 2,
            ServiceId::Config => 3,
            ServiceId::Log => 4,
            ServiceId::Status => 5,
            ServiceId::Shell => 6,
            ServiceId::Package => 7,
            ServiceId::Announce => 8,
            ServiceId::Network => 9,
            ServiceId::Graphics => 10,
            ServiceId::Session => 11,
            ServiceId::DesktopShell => 12,
            ServiceId::Terminal => 13,
            ServiceId::Audio => 14,
            ServiceId::Runtime => 15,
            ServiceId::Developer => 16,
            ServiceId::Clipboard => 17,
            ServiceId::Security => 18,
            ServiceId::SetupWizard => 19,
        }
    }
}

/// A program image the root manager can spawn.
#[derive(Clone, Copy, Debug, PartialEq, Eq, Structural)]
pub enum ServiceImageId {
    RootManager,
    StorageService,
    ConsoleService,
    ConfigService,
    LogService,
    StatusService,
    ShellService,
    SysinfoTool,
    PackageService,
    AnnounceService,
    NetworkService,
    GraphicsService,
    SessionService,
    DesktopShellService,
    SettingsApp,
    FilesApp,
    MonitorApp,
    TerminalService,
    TerminalApp,
    AudioService,
    RuntimeService,
    PosixHostTool,
    DeveloperService,
    CrossBuilderTool,
    ClipboardService,
    SoftwareCenterApp,
    SecurityService,
}

impl ServiceImageId {
    /// The word that carries this value on the wire.
    pub open spec fn spec_code(self) -> u32 {
        match self {
            ServiceImageId::RootManager => 0,
            ServiceImageId::StorageService => 1,
            ServiceImageId::ConsoleService => 2,
            ServiceImageId::ConfigService => 3,
            ServiceImageId::LogService => 4,
            ServiceImageId::StatusService => 5,
            ServiceImageId::ShellService => 6,
            ServiceImageId::SysinfoTool => 7,
            ServiceImageId::PackageService => 8,
            ServiceImageId::AnnounceService => 9,
            ServiceImageId::NetworkService => 10,
            ServiceImageId::GraphicsService => 11,
            ServiceImageId::SessionService => 12,
            ServiceImageId::DesktopShellService => 13,
            ServiceImageId::SettingsApp => 14,
            ServiceImageId::FilesApp => 15,
            ServiceImageId::MonitorApp => 16,
            ServiceImageId::TerminalService => 17,
            ServiceImageId::TerminalApp => 18,
            ServiceImageId::AudioService => 19,
            ServiceImageId::RuntimeService => 20,
            ServiceImageId::PosixHostTool => 21,
            ServiceImageId::DeveloperService => 22,
            ServiceImageId::CrossBuilderTool => 23,
            ServiceImageId::ClipboardService => 24,
            ServiceImageId::SoftwareCenterApp => 25,
            ServiceImageId::SecurityService => 26,
        }
    }

    /// The word that carries this value on the wire.
    #[verifier::when_used_as_spec(spec_code)]
    pub fn code(self) -> (c: u32)
        ensures
            c == self.spec_code(),
    {
        match self {
            ServiceImageId::RootManager => 0,
            ServiceImageId::StorageService => 1,
            ServiceImageId::ConsoleService => 2,
            ServiceImageId::ConfigService => 3,
            ServiceImageId::LogService => 4,
            ServiceImageId::StatusService => 5,
            ServiceImageId::ShellService => 6,
            ServiceImageId::SysinfoTool => 7,
            ServiceImageId::PackageService => 8,
            ServiceImageId::AnnounceService => 9,
            ServiceImageId::NetworkService => 10,
            ServiceImageId::GraphicsService => 11,
            ServiceImageId::SessionService => 12,
            ServiceImageId::DesktopShellService => 13,
            ServiceImageId::SettingsApp => 14,
            ServiceImageId::FilesApp => 15,
            ServiceImageId::MonitorApp => 16,
            ServiceImageId::TerminalService => 17,
            ServiceImageId::TerminalApp => 18,
            ServiceImageId::AudioService => 19,
            ServiceImageId::RuntimeService => 20,
            ServiceImageId::PosixHostTool => 21,
            ServiceImageId::DeveloperService => 22,
            ServiceImageId::CrossBuilderTool => 23,
            ServiceImageId::ClipboardService => 24,
            ServiceImageId::SoftwareCenterApp => 25,
            ServiceImageId::SecurityService => 26,
        }
    }
}

/// Severity of a log record.
#[derive(Clone, Copy, Debug, PartialEq, Eq, Structural)]
pub enum LogSeverity {
    Trace,
    Debug,
    Info,
    Warn,
    Error,
}

impl LogSeverity {
    /// The word that carries this value on the wire.
    pub open spec fn spec_code(self) -> u32 {
        match self {
            LogSeverity::Trace => 0,
            LogSeverity::Debug => 1,
            LogSeverity::Info => 2,
            LogSeverity::Warn => 3,
            LogSeverity::Error => 4,
        }
    }

    /// The word that carries this value on the wire.
    #[verifier::when_used_as_spec(spec_code)]
    pub fn code(self) -> (c: u32)
        ensures
            c == self.spec_code(),
    {
        match self {
            LogSeverity::Trace => 0,
            LogSeverity::Debug => 1,
            LogSeverity::Info => 2,
            LogSeverity::Warn => 3,
            LogSeverity::Error => 4,
        }
    }
}

/// Subsystem a log record belongs to.
#[derive(Clone, Copy, Debug, PartialEq, Eq, Structural)]
pub enum LogDomain {
    Service,
    Bootstrap,
    ServiceManager,
    Storage,
    Log,
    Config,
    Console,
    Status,
    Ipc,
    Shell,
    Package,
    Network,
    Graphics,
    Session,
    Desktop,
    App,
    Audio,
    Runtime,
    Developer,
    Security,
    Kernel,
}

impl LogDomain {
    /// The word that carries this value on the wire.
    pub open spec fn spec_code(self) -> u32 {
        match self {
            LogDomain::Service => 0,
            LogDomain::Bootstrap => 1,
            LogDomain::ServiceManager => 2,
            LogDomain::Storage => 3,
            LogDomain::Log => 4,
            LogDomain::Config => 5,
            LogDomain::Console => 6,
            LogDomain::Status => 7,
            LogDomain::Ipc => 8,
            LogDomain::Shell => 9,
            LogDomain::Package => 10,
            LogDomain::Network => 11,
            LogDomain::Graphics => 12,
            LogDomain::Session => 13,
            LogDomain::Desktop => 14,
            LogDomain::App => 15,
            LogDomain::Audio => 16,
            LogDomain::Runtime => 17,
            LogDomain::Developer => 18,
            LogDomain::Security => 19,
            LogDomain::Kernel => 20,
        }
    }

    /// The word that carries this value on the wire.
    #[verifier::when_used_as_spec(spec_code)]
    pub fn code(self) -> (c: u32)
        ensures
            c == self.spec_code(),
    {
        match self {
            LogDomain::Service => 0,
            LogDomain::Bootstrap => 1,
            LogDomain::ServiceManager => 2,
            LogDomain::Storage => 3,
            LogDomain::Log => 4,
            LogDomain::Config => 5,
            LogDomain::Console => 6,
            LogDomain::Status => 7,
            LogDomain::Ipc => 8,
            LogDomain::Shell => 9,
            LogDomain::Package => 10,
            LogDomain::Network => 11,
            LogDomain::Graphics => 12,
            LogDomain::Session => 13,
            LogDomain::Desktop => 14,
            LogDomain::App => 15,
            LogDomain::Audio => 16,
            LogDomain::Runtime => 17,
            LogDomain::Developer => 18,
            LogDomain::Security => 19,
            LogDomain::Kernel => 20,
        }
    }
}

/// What a log record reports.
#[derive(Clone, Copy, Debug, PartialEq, Eq, Structural)]
pub enum LogEvent {
    LookupGranted,
    ServiceStarted,
    ServiceReady,
    ServiceFailed,
    ServiceRestarting,
    ConfigLoaded,
    ConfigRead,
    ConsoleWrite,
    StatusStarted,
    StatusHeartbeat,
    StorageMounted,
    ManifestLoaded,
    ResourceOpened,
    SessionOpened,
    ShellCommand,
    ToolLaunched,
    PackageCatalogLoaded,
    PackageInstalled,
    PackageUpdated,
    PackageRemoved,
    PackageRolledBack,
    PackageActivationFailed,
    NetworkInterfaceReady,
    NetworkAddressConfigured,
    NetworkResolveCompleted,
    NetworkProbeCompleted,
    NetworkLinkChanged,
    DisplayOutputReady,
    SurfaceCreated,
    SurfaceUpdated,
    CompositorPresented,
    SessionReady,
    SessionFocusChanged,
    DesktopReady,
    DesktopAppLaunched,
    DesktopAppExited,
    DesktopFocusChanged,
    AppRendered,
    InputSourceReady,
    InputKeyDelivered,
    NetworkLeaseChanged,
    NetworkSocketOpened,
    NetworkSocketClosed,
    TerminalSessionOpened,
    TerminalSessionClosed,
    AudioEndpointReady,
    AudioStreamOpened,
    AudioStreamStarted,
    AudioStreamStopped,
    AudioStreamClosed,
    RuntimeEnvironmentCreated,
    RuntimeEnvironmentDestroyed,
    RuntimeLaunchStarted,
    RuntimeLaunchExited,
    RuntimeMappedRead,
    DeveloperCatalogLoaded,
    DeveloperBuildStarted,
    DeveloperBuildFinished,
    DeveloperBuildFailed,
    DeveloperArtifactOpened,
    SecurityPolicyChanged,
    SecurityLaunchDenied,
    RuntimeApprovalPending,
    RuntimeApprovalChanged,
    KernelTrap,
}

impl LogEvent {
    /// The word that carries this value on the wire.
    pub open spec fn spec_code(self) -> u32 {
        match self {
            LogEvent::LookupGranted => 0,
            LogEvent::ServiceStarted => 1,
            LogEvent::ServiceReady => 2,
            LogEvent::ServiceFailed => 3,
            LogEvent::ServiceRestarting => 4,
            LogEvent::ConfigLoaded => 5,
            LogEvent::ConfigRead => 6,
            LogEvent::ConsoleWrite => 7,
            LogEvent::StatusStarted => 8,
            LogEvent::StatusHeartbeat => 9,
            LogEvent::StorageMounted => 10,
            LogEvent::ManifestLoaded => 11,
            LogEvent::ResourceOpened => 12,
            LogEvent::SessionOpened => 13,
            LogEvent::ShellCommand => 14,
            LogEvent::ToolLaunched => 15,
            LogEvent::PackageCatalogLoaded => 16,
            LogEvent::PackageInstalled => 17,
            LogEvent::PackageUpdated => 18,
            LogEvent::PackageRemoved => 19,
            LogEvent::PackageRolledBack => 20,
            LogEvent::PackageActivationFailed => 21,
            LogEvent::NetworkInterfaceReady => 22,
            LogEvent::NetworkAddressConfigured => 23,
            LogEvent::NetworkResolveCompleted => 24,
            LogEvent::NetworkProbeCompleted => 25,
            LogEvent::NetworkLinkChanged => 26,
            LogEvent::DisplayOutputReady => 27,
            LogEvent::SurfaceCreated => 28,
            LogEvent::SurfaceUpdated => 29,
            LogEvent::CompositorPresented => 30,
            LogEvent::SessionReady => 31,
            LogEvent::SessionFocusChanged => 32,
            LogEvent::DesktopReady => 33,
            LogEvent::DesktopAppLaunched => 34,
            LogEvent::DesktopAppExited => 35,
            LogEvent::DesktopFocusChanged => 36,
            LogEvent::AppRendered => 37,
            LogEvent::InputSourceReady => 38,
            LogEvent::InputKeyDelivered => 39,
            LogEvent::NetworkLeaseChanged => 40,
            LogEvent::NetworkSocketOpened => 41,
            LogEvent::NetworkSocketClosed => 42,
            LogEvent::TerminalSessionOpened => 43,
            LogEvent::TerminalSessionClosed => 44,
            LogEvent::AudioEndpointReady => 45,
            LogEvent::AudioStreamOpened => 46,
            LogEvent::AudioStreamStarted => 47,
            LogEvent::AudioStreamStopped => 48,
            LogEvent::AudioStreamClosed => 49,
            LogEvent::RuntimeEnvironmentCreated => 50,
            LogEvent::RuntimeEnvironmentDestroyed => 51,
            LogEvent::RuntimeLaunchStarted => 52,
            LogEvent::RuntimeLaunchExited => 53,
            LogEvent::RuntimeMappedRead => 54,
            LogEvent::DeveloperCatalogLoaded => 55,
            LogEvent::DeveloperBuildStarted => 56,
            LogEvent::DeveloperBuildFinished => 57,
            LogEvent::DeveloperBuildFailed => 58,
            LogEvent::DeveloperArtifactOpened => 59,
            LogEvent::SecurityPolicyChanged => 60,
            LogEvent::SecurityLaunchDenied => 61,
            LogEvent::RuntimeApprovalPending => 62,
            LogEvent::RuntimeApprovalChanged => 63,
            LogEvent::KernelTrap => 64,
        }
    }

    /// The word that carries this value on the wire.
    #[verifier::when_used_as_spec(spec_code)]
    pub fn code(self) -> (c: u32)
        ensures
            c == self.spec_code(),
    {
        match self {
            LogEvent::LookupGranted => 0,
            LogEvent::ServiceStarted => 1,
            LogEvent::ServiceReady => 2,
            LogEvent::ServiceFailed => 3,
            LogEvent::ServiceRestarting => 4,
            LogEvent::ConfigLoaded => 5,
            LogEvent::ConfigRead => 6,
            LogEvent::ConsoleWrite => 7,
            LogEvent::StatusStarted => 8,
            LogEvent::StatusHeartbeat => 9,
            LogEvent::StorageMounted => 10,
            LogEvent::ManifestLoaded => 11,
            LogEvent::ResourceOpened => 12,
            LogEvent::SessionOpened => 13,
            LogEvent::ShellCommand => 14,
            LogEvent::ToolLaunched => 15,
            LogEvent::PackageCatalogLoaded => 16,
            LogEvent::PackageInstalled => 17,
            LogEvent::PackageUpdated => 18,
            LogEvent::PackageRemoved => 19,
            LogEvent::PackageRolledBack => 20,
            LogEvent::PackageActivationFailed => 21,
            LogEvent::NetworkInterfaceReady => 22,
            LogEvent::NetworkAddressConfigured => 23,
            LogEvent::NetworkResolveCompleted => 24,
            LogEvent::NetworkProbeCompleted => 25,
            LogEvent::NetworkLinkChanged => 26,
            LogEvent::DisplayOutputReady => 27,
            LogEvent::SurfaceCreated => 28,
            LogEvent::SurfaceUpdated => 29,
            LogEvent::CompositorPresented => 30,
            LogEvent::SessionReady => 31,
            LogEvent::SessionFocusChanged => 32,
            LogEvent::DesktopReady => 33,
            LogEvent::DesktopAppLaunched => 34,
            LogEvent::DesktopAppExited => 35,
            LogEvent::DesktopFocusChanged => 36,
            LogEvent::AppRendered => 37,
            LogEvent::InputSourceReady => 38,
            LogEvent::InputKeyDelivered => 39,
            LogEvent::NetworkLeaseChanged => 40,
            LogEvent::NetworkSocketOpened => 41,
            LogEvent::NetworkSocketClosed => 42,
            LogEvent::TerminalSessionOpened => 43,
            LogEvent::TerminalSessionClosed => 44,
            LogEvent::AudioEndpointReady => 45,
            LogEvent::AudioStreamOpened => 46,
            LogEvent::AudioStreamStarted => 47,
            LogEvent::AudioStreamStopped => 48,
            LogEvent::AudioStreamClosed => 49,
            LogEvent::RuntimeEnvironmentCreated => 50,
            LogEvent::RuntimeEnvironmentDestroyed => 51,
            LogEvent::RuntimeLaunchStarted => 52,
            LogEvent::RuntimeLaunchExited => 53,
            LogEvent::RuntimeMappedRead => 54,
            LogEvent::DeveloperCatalogLoaded => 55,
            LogEvent::DeveloperBuildStarted => 56,
            LogEvent::DeveloperBuildFinished => 57,
            LogEvent::DeveloperBuildFailed => 58,
            LogEvent::DeveloperArtifactOpened => 59,
            LogEvent::SecurityPolicyChanged => 60,
            LogEvent::SecurityLaunchDenied => 61,
            LogEvent::RuntimeApprovalPending => 62,
            LogEvent::RuntimeApprovalChanged => 63,
            LogEvent::KernelTrap => 64,
        }
    }
}

/// Outcome of a bootstrap lookup.
#[derive(Clone, Copy, Debug, PartialEq, Eq, Structural)]
pub enum LookupStatus {
    Success,
    Denied,
    Unavailable,
}

impl LookupStatus {
    /// The word that carries this value on the wire.
    pub open spec fn spec_code(self) -> u32 {
        match self {
            LookupStatus::Success => 0,
            LookupStatus::Denied => 1,
            LookupStatus::Unavailable => 2,
        }
    }

    /// The word that carries this value on the wire.
    #[verifier::when_used_as_spec(spec_code)]
    pub fn code(self) -> (c: u32)
        ensures
            c == self.spec_code(),
    {
        match self {
            LookupStatus::Success => 0,
            LookupStatus::Denied => 1,
            LookupStatus::Unavailable => 2,
        }
    }
}

/// A configuration key held by the config service.
#[derive(Clone, Copy, Debug, PartialEq, Eq, Structural)]
pub enum ConfigKey {
    SystemHostname,
    LogMinimumSeverity,
    StatusHeartbeatTicks,
}

impl ConfigKey {
    /// The word that carries this value on the wire.
    pub open spec fn spec_code(self) -> u32 {
        match self {
            ConfigKey::SystemHostname => 0,
            ConfigKey::LogMinimumSeverity => 1,
            ConfigKey::StatusHeartbeatTicks => 2,
        }
    }

    /// The word that carries this value on the wire.
    #[verifier::when_used_as_spec(spec_code)]
    pub fn code(self) -> (c: u32)
        ensures
            c == self.spec_code(),
    {
        match self {
            ConfigKey::SystemHostname => 0,
            ConfigKey::LogMinimumSeverity => 1,
            ConfigKey::StatusHeartbeatTicks => 2,
        }
    }
}

/// Outcome of a config request.
#[derive(Clone, Copy, Debug, PartialEq, Eq, Structural)]
pub enum ConfigStatus {
    Success,
    NotFound,
    Denied,
}

impl ConfigStatus {
    /// The word that carries this value on the wire.
    pub open spec fn spec_code(self) -> u32 {
        match self {
            ConfigStatus::Success => 0,
            ConfigStatus::NotFound => 1,
            ConfigStatus::Denied => 2,
        }
    }

    /// The word that carries this value on the wire.
    #[verifier::when_used_as_spec(spec_code)]
    pub fn code(self) -> (c: u32)
        ensures
            c == self.spec_code(),
    {
        match self {
            ConfigStatus::Success => 0,
            ConfigStatus::NotFound => 1,
            ConfigStatus::Denied => 2,
        }
    }
}

/// Kind of a configuration value.
#[derive(Clone, Copy, Debug, PartialEq, Eq, Structural)]
pub enum ConfigValueKind {
    Unsigned,
}

impl ConfigValueKind {
    /// The word that carries this value on the wire.
    pub open spec fn spec_code(self) -> u32 {
        match self {
            ConfigValueKind::Unsigned => 0,
        }
    }

    /// The word that carries this value on the wire.
    #[verifier::when_used_as_spec(spec_code)]
    pub fn code(self) -> (c: u32)
        ensures
            c == self.spec_code(),
    {
        match self {
            ConfigValueKind::Unsigned => 0,
        }
    }
}

/// Personality of a runtime environment.
#[derive(Clone, Copy, Debug, PartialEq, Eq, Structural)]
pub enum RuntimeKind {
    Posix,
    Windows,
}

impl RuntimeKind {
    /// The word that carries this value on the wire.
    pub open spec fn spec_code(self) -> u32 {
        match self {
            RuntimeKind::Posix => 0,
            RuntimeKind::Windows => 1,
        }
    }

    /// The word that carries this value on the wire.
    #[verifier::when_used_as_spec(spec_code)]
    pub fn code(self) -> (c: u32)
        ensures
            c == self.spec_code(),
    {
        match self {
            RuntimeKind::Posix => 0,
            RuntimeKind::Windows => 1,
        }
    }
}

/// Lifecycle state of a runtime environment.
#[derive(Clone, Copy, Debug, PartialEq, Eq, Structural)]
pub enum RuntimeEnvState {
    Ready,
    Busy,
    Destroyed,
    PendingApproval,
    Denied,
}

impl RuntimeEnvState {
    /// The word that carries this value on the wire.
    pub open spec fn spec_code(self) -> u32 {
        match self {
            RuntimeEnvState::Ready => 0,
            RuntimeEnvState::Busy => 1,
            RuntimeEnvState::Destroyed => 2,
            RuntimeEnvState::PendingApproval => 3,
            RuntimeEnvState::Denied => 4,
        }
    }

    /// The word that carries this value on the wire.
    #[verifier::when_used_as_spec(spec_code)]
    pub fn code(self) -> (c: u32)
        ensures
            c == self.spec_code(),
    {
        match self {
            RuntimeEnvState::Ready => 0,
            RuntimeEnvState::Busy => 1,
            RuntimeEnvState::Destroyed => 2,
            RuntimeEnvState::PendingApproval => 3,
            RuntimeEnvState::Denied => 4,
        }
    }
}

/// Lifecycle state of a runtime workload run.
#[derive(Clone, Copy, Debug, PartialEq, Eq, Structural)]
pub enum RuntimeRunState {
    Launching,
    Running,
    Exited,
    Failed,
}

impl RuntimeRunState {
    /// The word that carries this value on the wire.
    pub open spec fn spec_code(self) -> u32 {
        match self {
            RuntimeRunState::Launching => 0,
            RuntimeRunState::Running => 1,
            RuntimeRunState::Exited => 2,
            RuntimeRunState::Failed => 3,
        }
    }

    /// The word that carries this value on the wire.
    #[verifier::when_used_as_spec(spec_code)]
    pub fn code(self) -> (c: u32)
        ensures
            c == self.spec_code(),
    {
        match self {
            RuntimeRunState::Launching => 0,
            RuntimeRunState::Running => 1,
            RuntimeRunState::Exited => 2,
            RuntimeRunState::Failed => 3,
        }
    }
}

/// Built-in workload a runtime run executes.
#[derive(Clone, Copy, Debug, PartialEq, Eq, Structural)]
pub enum RuntimeWorkloadKind {
    Inspect,
    Env,
    Mounts,
    Cat,
}

impl RuntimeWorkloadKind {
    /// The word that carries this value on the wire.
    pub open spec fn spec_code(self) -> u32 {
        match self {
            RuntimeWorkloadKind::Inspect => 0,
            RuntimeWorkloadKind::Env => 1,
            RuntimeWorkloadKind::Mounts => 2,
            RuntimeWorkloadKind::Cat => 3,
        }
    }

    /// The word that carries this value on the wire.
    #[verifier::when_used_as_spec(spec_code)]
    pub fn code(self) -> (c: u32)
        ensures
            c == self.spec_code(),
    {
        match self {
            RuntimeWorkloadKind::Inspect => 0,
            RuntimeWorkloadKind::Env => 1,
            RuntimeWorkloadKind::Mounts => 2,
            RuntimeWorkloadKind::Cat => 3,
        }
    }
}

/// Outcome of a runtime-service request.
#[derive(Clone, Copy, Debug, PartialEq, Eq, Structural)]
pub enum RuntimeStatus {
    Success,
    NotFound,
    Busy,
    Denied,
    InvalidPath,
    Unsupported,
    Closed,
    PendingApproval,
}

impl RuntimeStatus {
    /// The word that carries this value on the wire.
    pub open spec fn spec_code(self) -> u32 {
        match self {
            RuntimeStatus::Success => 0,
            RuntimeStatus::NotFound => 1,
            RuntimeStatus::Busy => 2,
            RuntimeStatus::Denied => 3,
            RuntimeStatus::InvalidPath => 4,
            RuntimeStatus::Unsupported => 5,
            RuntimeStatus::Closed => 6,
            RuntimeStatus::PendingApproval => 7,
        }
    }

    /// The word that carries this value on the wire.
    #[verifier::when_used_as_spec(spec_code)]
    pub fn code(self) -> (c: u32)
        ensures
            c == self.spec_code(),
    {
        match self {
            RuntimeStatus::Success => 0,
            RuntimeStatus::NotFound => 1,
            RuntimeStatus::Busy => 2,
            RuntimeStatus::Denied => 3,
            RuntimeStatus::InvalidPath => 4,
            RuntimeStatus::Unsupported => 5,
            RuntimeStatus::Closed => 6,
            RuntimeStatus::PendingApproval => 7,
        }
    }
}

/// Permission decision recorded for an app or environment.
#[derive(Clone, Copy, Debug, PartialEq, Eq, Structural)]
pub enum PermissionPolicyState {
    DefaultAllow,
    Allowed,
    Blocked,
}

impl PermissionPolicyState {
    /// The word that carries this value on the wire.
    pub open spec fn spec_code(self) -> u32 {
        match self {
            PermissionPolicyState::DefaultAllow => 0,
            PermissionPolicyState::Allowed => 1,
            PermissionPolicyState::Blocked => 2,
        }
    }

    /// The word that carries this value on the wire.
    #[verifier::when_used_as_spec(spec_code)]
    pub fn code(self) -> (c: u32)
        ensures
            c == self.spec_code(),
    {
        match self {
            PermissionPolicyState::DefaultAllow => 0,
            PermissionPolicyState::Allowed => 1,
            PermissionPolicyState::Blocked => 2,
        }
    }
}

/// Kind of a security audit record.
#[derive(Clone, Copy, Debug, PartialEq, Eq, Structural)]
pub enum SecurityAuditKind {
    PolicyChanged,
    LaunchDenied,
    RuntimeApprovalRequested,
    RuntimeApprovalChanged,
}

impl SecurityAuditKind {
    /// The word that carries this value on the wire.
    pub open spec fn spec_code(self) -> u32 {
        match self {
            SecurityAuditKind::PolicyChanged => 0,
            SecurityAuditKind::LaunchDenied => 1,
            SecurityAuditKind::RuntimeApprovalRequested => 2,
            SecurityAuditKind::RuntimeApprovalChanged => 3,
        }
    }

    /// The word that carries this value on the wire.
    #[verifier::when_used_as_spec(spec_code)]
    pub fn code(self) -> (c: u32)
        ensures
            c == self.spec_code(),
    {
        match self {
            SecurityAuditKind::PolicyChanged => 0,
            SecurityAuditKind::LaunchDenied => 1,
            SecurityAuditKind::RuntimeApprovalRequested => 2,
            SecurityAuditKind::RuntimeApprovalChanged => 3,
        }
    }
}

/// Outcome of a security-service request.
#[derive(Clone, Copy, Debug, PartialEq, Eq, Structural)]
pub enum SecurityStatus {
    Success,
    NotFound,
    Busy,
    Denied,
}

impl SecurityStatus {
    /// The word that carries this value on the wire.
    pub open spec fn spec_code(self) -> u32 {
        match self {
            SecurityStatus::Success => 0,
            SecurityStatus::NotFound => 1,
            SecurityStatus::Busy => 2,
            SecurityStatus::Denied => 3,
        }
    }

    /// The word that carries this value on the wire.
    #[verifier::when_used_as_spec(spec_code)]
    pub fn code(self) -> (c: u32)
        ensures
            c == self.spec_code(),
    {
        match self {
            SecurityStatus::Success => 0,
            SecurityStatus::NotFound => 1,
            SecurityStatus::Busy => 2,
            SecurityStatus::Denied => 3,
        }
    }
}

/// Outcome of a network-service request.
#[derive(Clone, Copy, Debug, PartialEq, Eq, Structural)]
pub enum NetworkStatus {
    Success,
    NotFound,
    Busy,
    InvalidTarget,
    Timeout,
    End,
    Unsupported,
    Denied,
    CapacityExceeded,
    Closed,
}

impl NetworkStatus {
    /// The word that carries this value on the wire.
    pub open spec fn spec_code(self) -> u32 {
        match self {
            NetworkStatus::Success => 0,
            NetworkStatus::NotFound => 1,
            NetworkStatus::Busy => 2,
            NetworkStatus::InvalidTarget => 3,
            NetworkStatus::Timeout => 4,
            NetworkStatus::End => 5,
            NetworkStatus::Unsupported => 6,
            NetworkStatus::Denied => 7,
            NetworkStatus::CapacityExceeded => 8,
            NetworkStatus::Closed => 9,
        }
    }

    /// The word that carries this value on the wire.
    #[verifier::when_used_as_spec(spec_code)]
    pub fn code(self) -> (c: u32)
        ensures
            c == self.spec_code(),
    {
        match self {
            NetworkStatus::Success => 0,
            NetworkStatus::NotFound => 1,
            NetworkStatus::Busy => 2,
            NetworkStatus::InvalidTarget => 3,
            NetworkStatus::Timeout => 4,
            NetworkStatus::End => 5,
            NetworkStatus::Unsupported => 6,
            NetworkStatus::Denied => 7,
            NetworkStatus::CapacityExceeded => 8,
            NetworkStatus::Closed => 9,
        }
    }
}

/// How an interface address is configured.
#[derive(Clone, Copy, Debug, PartialEq, Eq, Structural)]
pub enum NetworkConfigMode {
    Static,
    Dynamic,
}

impl NetworkConfigMode {
    /// The word that carries this value on the wire.
    pub open spec fn spec_code(self) -> u32 {
        match self {
            NetworkConfigMode::Static => 0,
            NetworkConfigMode::Dynamic => 1,
        }
    }

    /// The word that carries this value on the wire.
    #[verifier::when_used_as_spec(spec_code)]
    pub fn code(self) -> (c: u32)
        ensures
            c == self.spec_code(),
    {
        match self {
            NetworkConfigMode::Static => 0,
            NetworkConfigMode::Dynamic => 1,
        }
    }
}

/// Progress of interface address configuration.
#[derive(Clone, Copy, Debug, PartialEq, Eq, Structural)]
pub enum NetworkConfigState {
    Configured,
    Pending,
    FallbackStatic,
    Failed,
}

impl NetworkConfigState {
    /// The word that carries this value on the wire.
    pub open spec fn spec_code(self) -> u32 {
        match self {
            NetworkConfigState::Configured => 0,
            NetworkConfigState::Pending => 1,
            NetworkConfigState::FallbackStatic => 2,
            NetworkConfigState::Failed => 3,
        }
    }

    /// The word that carries this value on the wire.
    #[verifier::when_used_as_spec(spec_code)]
    pub fn code(self) -> (c: u32)
        ensures
            c == self.spec_code(),
    {
        match self {
            NetworkConfigState::Configured => 0,
            NetworkConfigState::Pending => 1,
            NetworkConfigState::FallbackStatic => 2,
            NetworkConfigState::Failed => 3,
        }
    }
}

/// Kind of a network socket.
#[derive(Clone, Copy, Debug, PartialEq, Eq, Structural)]
pub enum NetworkSocketKind {
    TcpStream,
}

impl NetworkSocketKind {
    /// The word that carries this value on the wire.
    pub open spec fn spec_code(self) -> u32 {
        match self {
            NetworkSocketKind::TcpStream => 0,
        }
    }

    /// The word that carries this value on the wire.
    #[verifier::when_used_as_spec(spec_code)]
    pub fn code(self) -> (c: u32)
        ensures
            c == self.spec_code(),
    {
        match self {
            NetworkSocketKind::TcpStream => 0,
        }
    }
}

/// Connection state of a network socket.
#[derive(Clone, Copy, Debug, PartialEq, Eq, Structural)]
pub enum NetworkSocketState {
    Closed,
    Connecting,
    Established,
    Closing,
    Failed,
}

impl NetworkSocketState {
    /// The word that carries this value on the wire.
    pub open spec fn spec_code(self) -> u32 {
        match self {
            NetworkSocketState::Closed => 0,
            NetworkSocketState::Connecting => 1,
            NetworkSocketState::Established => 2,
            NetworkSocketState::Closing => 3,
            NetworkSocketState::Failed => 4,
        }
    }

    /// The word that carries this value on the wire.
    #[verifier::when_used_as_spec(spec_code)]
    pub fn code(self) -> (c: u32)
        ensures
            c == self.spec_code(),
    {
        match self {
            NetworkSocketState::Closed => 0,
            NetworkSocketState::Connecting => 1,
            NetworkSocketState::Established => 2,
            NetworkSocketState::Closing => 3,
            NetworkSocketState::Failed => 4,
        }
    }
}

/// Driver behind a packet interface.
#[derive(Clone, Copy, Debug, PartialEq, Eq, Structural)]
pub enum PacketInterfaceBackend {
    Unknown,
    VirtioPci,
}

impl PacketInterfaceBackend {
    /// The word that carries this value on the wire.
    pub open spec fn spec_code(self) -> u32 {
        match self {
            PacketInterfaceBackend::Unknown => 0,
            PacketInterfaceBackend::VirtioPci => 1,
        }
    }

    /// The word that carries this value on the wire.
    #[verifier::when_used_as_spec(spec_code)]
    pub fn code(self) -> (c: u32)
        ensures
            c == self.spec_code(),
    {
        match self {
            PacketInterfaceBackend::Unknown => 0,
            PacketInterfaceBackend::VirtioPci => 1,
        }
    }
}

/// Link state of a packet interface.
#[derive(Clone, Copy, Debug, PartialEq, Eq, Structural)]
pub enum PacketInterfaceLinkState {
    Down,
    Up,
}

impl PacketInterfaceLinkState {
    /// The word that carries this value on the wire.
    pub open spec fn spec_code(self) -> u32 {
        match self {
            PacketInterfaceLinkState::Down => 0,
            PacketInterfaceLinkState::Up => 1,
        }
    }

    /// The word that carries this value on the wire.
    #[verifier::when_used_as_spec(spec_code)]
    pub fn code(self) -> (c: u32)
        ensures
            c == self.spec_code(),
    {
        match self {
            PacketInterfaceLinkState::Down => 0,
            PacketInterfaceLinkState::Up => 1,
        }
    }
}

/// Kind of a locally bound port.
#[derive(Clone, Copy, Debug, PartialEq, Eq, Structural)]
pub enum NetworkListenPortKind {
    Unknown,
    TcpListener,
    UdpClient,
    UdpInternal,
}

impl NetworkListenPortKind {
    /// The word that carries this value on the wire.
    pub open spec fn spec_code(self) -> u32 {
        match self {
            NetworkListenPortKind::Unknown => 0,
            NetworkListenPortKind::TcpListener => 1,
            NetworkListenPortKind::UdpClient => 2,
            NetworkListenPortKind::UdpInternal => 3,
        }
    }

    /// The word that carries this value on the wire.
    #[verifier::when_used_as_spec(spec_code)]
    pub fn code(self) -> (c: u32)
        ensures
            c == self.spec_code(),
    {
        match self {
            NetworkListenPortKind::Unknown => 0,
            NetworkListenPortKind::TcpListener => 1,
            NetworkListenPortKind::UdpClient => 2,
            NetworkListenPortKind::UdpInternal => 3,
        }
    }
}

/// Wireless link state.
#[derive(Clone, Copy, Debug, PartialEq, Eq, Structural)]
pub enum WifiLinkState {
    Down,
    Scanning,
    Authenticating,
    Associating,
    Connected,
}

impl WifiLinkState {
    /// The word that carries this value on the wire.
    pub open spec fn spec_code(self) -> u32 {
        match self {
            WifiLinkState::Down => 0,
            WifiLinkState::Scanning => 1,
            WifiLinkState::Authenticating => 2,
            WifiLinkState::Associating => 3,
            WifiLinkState::Connected => 4,
        }
    }

    /// The word that carries this value on the wire.
    #[verifier::when_used_as_spec(spec_code)]
    pub fn code(self) -> (c: u32)
        ensures
            c == self.spec_code(),
    {
        match self {
            WifiLinkState::Down => 0,
            WifiLinkState::Scanning => 1,
            WifiLinkState::Authenticating => 2,
            WifiLinkState::Associating => 3,
            WifiLinkState::Connected => 4,
        }
    }
}

/// Security of a wireless network.
#[derive(Clone, Copy, Debug, PartialEq, Eq, Structural)]
pub enum WifiSecurity {
    Open,
    Wpa2,
    Wpa3,
    Unknown,
}

impl WifiSecurity {
    /// The word that carries this value on the wire.
    pub open spec fn spec_code(self) -> u32 {
        match self {
            WifiSecurity::Open => 0,
            WifiSecurity::Wpa2 => 1,
            WifiSecurity::Wpa3 => 2,
            WifiSecurity::Unknown => 3,
        }
    }

    /// The word that carries this value on the wire.
    #[verifier::when_used_as_spec(spec_code)]
    pub fn code(self) -> (c: u32)
        ensures
            c == self.spec_code(),
    {
        match self {
            WifiSecurity::Open => 0,
            WifiSecurity::Wpa2 => 1,
            WifiSecurity::Wpa3 => 2,
            WifiSecurity::Unknown => 3,
        }
    }
}

/// Outcome of a storage-service request.
#[derive(Clone, Copy, Debug, PartialEq, Eq, Structural)]
pub enum StorageStatus {
    Success,
    NotFound,
    Busy,
    Denied,
    InvalidPath,
    InvalidOffset,
    End,
    AlreadyExists,
    NotDirectory,
}

impl StorageStatus {
    /// The word that carries this value on the wire.
    pub open spec fn spec_code(self) -> u32 {
        match self {
            StorageStatus::Success => 0,
            StorageStatus::NotFound => 1,
            StorageStatus::Busy => 2,
            StorageStatus::Denied => 3,
            StorageStatus::InvalidPath => 4,
            StorageStatus::InvalidOffset => 5,
            StorageStatus::End => 6,
            StorageStatus::AlreadyExists => 7,
            StorageStatus::NotDirectory => 8,
        }
    }

    /// The word that carries this value on the wire.
    #[verifier::when_used_as_spec(spec_code)]
    pub fn code(self) -> (c: u32)
        ensures
            c == self.spec_code(),
    {
        match self {
            StorageStatus::Success => 0,
            StorageStatus::NotFound => 1,
            StorageStatus::Busy => 2,
            StorageStatus::Denied => 3,
            StorageStatus::InvalidPath => 4,
            StorageStatus::InvalidOffset => 5,
            StorageStatus::End => 6,
            StorageStatus::AlreadyExists => 7,
            StorageStatus::NotDirectory => 8,
        }
    }
}

/// Kind of a storage entry.
#[derive(Clone, Copy, Debug, PartialEq, Eq, Structural)]
pub enum StorageEntryKind {
    File,
    Directory,
}

impl StorageEntryKind {
    /// The word that carries this value on the wire.
    pub open spec fn spec_code(self) -> u32 {
        match self {
            StorageEntryKind::File => 0,
            StorageEntryKind::Directory => 1,
        }
    }

    /// The word that carries this value on the wire.
    #[verifier::when_used_as_spec(spec_code)]
    pub fn code(self) -> (c: u32)
        ensures
            c == self.spec_code(),
    {
        match self {
            StorageEntryKind::File => 0,
            StorageEntryKind::Directory => 1,
        }
    }
}

/// Kind of a storage mount.
#[derive(Clone, Copy, Debug, PartialEq, Eq, Structural)]
pub enum StorageMountKind {
    Boot,
    Persistent,
    Ephemeral,
}

impl StorageMountKind {
    /// The word that carries this value on the wire.
    pub open spec fn spec_code(self) -> u32 {
        match self {
            StorageMountKind::Boot => 0,
            StorageMountKind::Persistent => 1,
            StorageMountKind::Ephemeral => 2,
        }
    }

    /// The word that carries this value on the wire.
    #[verifier::when_used_as_spec(spec_code)]
    pub fn code(self) -> (c: u32)
        ensures
            c == self.spec_code(),
    {
        match self {
            StorageMountKind::Boot => 0,
            StorageMountKind::Persistent => 1,
            StorageMountKind::Ephemeral => 2,
        }
    }
}

/// Outcome of a clipboard-service request.
#[derive(Clone, Copy, Debug, PartialEq, Eq, Structural)]
pub enum ClipboardStatus {
    Success,
    NotFound,
    Denied,
}

impl ClipboardStatus {
    /// The word that carries this value on the wire.
    pub open spec fn spec_code(self) -> u32 {
        match self {
            ClipboardStatus::Success => 0,
            ClipboardStatus::NotFound => 1,
            ClipboardStatus::Denied => 2,
        }
    }

    /// The word that carries this value on the wire.
    #[verifier::when_used_as_spec(spec_code)]
    pub fn code(self) -> (c: u32)
        ensures
            c == self.spec_code(),
    {
        match self {
            ClipboardStatus::Success => 0,
            ClipboardStatus::NotFound => 1,
            ClipboardStatus::Denied => 2,
        }
    }
}

/// Outcome of a session-service request.
#[derive(Clone, Copy, Debug, PartialEq, Eq, Structural)]
pub enum SessionStatus {
    Success,
    NotFound,
    Busy,
    Denied,
}

impl SessionStatus {
    /// The word that carries this value on the wire.
    pub open spec fn spec_code(self) -> u32 {
        match self {
            SessionStatus::Success => 0,
            SessionStatus::NotFound => 1,
            SessionStatus::Busy => 2,
            SessionStatus::Denied => 3,
        }
    }

    /// The word that carries this value on the wire.
    #[verifier::when_used_as_spec(spec_code)]
    pub fn code(self) -> (c: u32)
        ensures
            c == self.spec_code(),
    {
        match self {
            SessionStatus::Success => 0,
            SessionStatus::NotFound => 1,
            SessionStatus::Busy => 2,
            SessionStatus::Denied => 3,
        }
    }
}

/// Where a session receives its input from.
#[derive(Clone, Copy, Debug, PartialEq, Eq, Structural)]
pub enum SessionInputSource {
    Detached,
    ServiceControl,
    Hardware,
}

impl SessionInputSource {
    /// The word that carries this value on the wire.
    pub open spec fn spec_code(self) -> u32 {
        match self {
            SessionInputSource::Detached => 0,
            SessionInputSource::ServiceControl => 1,
            SessionInputSource::Hardware => 2,
        }
    }

    /// The word that carries this value on the wire.
    #[verifier::when_used_as_spec(spec_code)]
    pub fn code(self) -> (c: u32)
        ensures
            c == self.spec_code(),
    {
        match self {
            SessionInputSource::Detached => 0,
            SessionInputSource::ServiceControl => 1,
            SessionInputSource::Hardware => 2,
        }
    }
}

/// Outcome of a terminal-service request.
#[derive(Clone, Copy, Debug, PartialEq, Eq, Structural)]
pub enum TerminalStatus {
    Success,
    NotFound,
    Busy,
    Denied,
    Closed,
}

impl TerminalStatus {
    /// The word that carries this value on the wire.
    pub open spec fn spec_code(self) -> u32 {
        match self {
            TerminalStatus::Success => 0,
            TerminalStatus::NotFound => 1,
            TerminalStatus::Busy => 2,
            TerminalStatus::Denied => 3,
            TerminalStatus::Closed => 4,
        }
    }

    /// The word that carries this value on the wire.
    #[verifier::when_used_as_spec(spec_code)]
    pub fn code(self) -> (c: u32)
        ensures
            c == self.spec_code(),
    {
        match self {
            TerminalStatus::Success => 0,
            TerminalStatus::NotFound => 1,
            TerminalStatus::Busy => 2,
            TerminalStatus::Denied => 3,
            TerminalStatus::Closed => 4,
        }
    }
}

/// Health a service reports to the status service.
#[derive(Clone, Copy, Debug, PartialEq, Eq, Structural)]
pub enum StatusHealth {
    Unknown,
    Healthy,
    Degraded,
    Failing,
    Recovering,
    Dormant,
}

impl StatusHealth {
    /// The word that carries this value on the wire.
    pub open spec fn spec_code(self) -> u32 {
        match self {
            StatusHealth::Unknown => 0,
            StatusHealth::Healthy => 1,
            StatusHealth::Degraded => 2,
            StatusHealth::Failing => 3,
            StatusHealth::Recovering => 4,
            StatusHealth::Dormant => 5,
        }
    }

    /// The word that carries this value on the wire.
    #[verifier::when_used_as_spec(spec_code)]
    pub fn code(self) -> (c: u32)
        ensures
            c == self.spec_code(),
    {
        match self {
            StatusHealth::Unknown => 0,
            StatusHealth::Healthy => 1,
            StatusHealth::Degraded => 2,
            StatusHealth::Failing => 3,
            StatusHealth::Recovering => 4,
            StatusHealth::Dormant => 5,
        }
    }
}

/// Outcome of a status-service request.
#[derive(Clone, Copy, Debug, PartialEq, Eq, Structural)]
pub enum StatusResult {
    Success,
    NotFound,
    Busy,
    Denied,
}

impl StatusResult {
    /// The word that carries this value on the wire.
    pub open spec fn spec_code(self) -> u32 {
        match self {
            StatusResult::Success => 0,
            StatusResult::NotFound => 1,
            StatusResult::Busy => 2,
            StatusResult::Denied => 3,
        }
    }

    /// The word that carries this value on the wire.
    #[verifier::when_used_as_spec(spec_code)]
    pub fn code(self) -> (c: u32)
        ensures
            c == self.spec_code(),
    {
        match self {
            StatusResult::Success => 0,
            StatusResult::NotFound => 1,
            StatusResult::Busy => 2,
            StatusResult::Denied => 3,
        }
    }
}

/// Outcome of an audio-service request.
#[derive(Clone, Copy, Debug, PartialEq, Eq, Structural)]
pub enum AudioStatus {
    Success,
    NotFound,
    Busy,
    Unsupported,
    Denied,
    CapacityExceeded,
    Closed,
}

impl AudioStatus {
    /// The word that carries this value on the wire.
    pub open spec fn spec_code(self) -> u32 {
        match self {
            AudioStatus::Success => 0,
            AudioStatus::NotFound => 1,
            AudioStatus::Busy => 2,
            AudioStatus::Unsupported => 3,
            AudioStatus::Denied => 4,
            AudioStatus::CapacityExceeded => 5,
            AudioStatus::Closed => 6,
        }
    }

    /// The word that carries this value on the wire.
    #[verifier::when_used_as_spec(spec_code)]
    pub fn code(self) -> (c: u32)
        ensures
            c == self.spec_code(),
    {
        match self {
            AudioStatus::Success => 0,
            AudioStatus::NotFound => 1,
            AudioStatus::Busy => 2,
            AudioStatus::Unsupported => 3,
            AudioStatus::Denied => 4,
            AudioStatus::CapacityExceeded => 5,
            AudioStatus::Closed => 6,
        }
    }
}

/// Driver behind an audio endpoint.
#[derive(Clone, Copy, Debug, PartialEq, Eq, Structural)]
pub enum AudioEndpointBackend {
    Unknown,
    PcSpeaker,
}

impl AudioEndpointBackend {
    /// The word that carries this value on the wire.
    pub open spec fn spec_code(self) -> u32 {
        match self {
            AudioEndpointBackend::Unknown => 0,
            AudioEndpointBackend::PcSpeaker => 1,
        }
    }

    /// The word that carries this value on the wire.
    #[verifier::when_used_as_spec(spec_code)]
    pub fn code(self) -> (c: u32)
        ensures
            c == self.spec_code(),
    {
        match self {
            AudioEndpointBackend::Unknown => 0,
            AudioEndpointBackend::PcSpeaker => 1,
        }
    }
}

/// Direction of an audio endpoint.
#[derive(Clone, Copy, Debug, PartialEq, Eq, Structural)]
pub enum AudioEndpointDirection {
    Output,
    Input,
}

impl AudioEndpointDirection {
    /// The word that carries this value on the wire.
    pub open spec fn spec_code(self) -> u32 {
        match self {
            AudioEndpointDirection::Output => 0,
            AudioEndpointDirection::Input => 1,
        }
    }

    /// The word that carries this value on the wire.
    #[verifier::when_used_as_spec(spec_code)]
    pub fn code(self) -> (c: u32)
        ensures
            c == self.spec_code(),
    {
        match self {
            AudioEndpointDirection::Output => 0,
            AudioEndpointDirection::Input => 1,
        }
    }
}

/// State of an audio endpoint.
#[derive(Clone, Copy, Debug, PartialEq, Eq, Structural)]
pub enum AudioEndpointState {
    Idle,
    Offline,
    Active,
}

impl AudioEndpointState {
    /// The word that carries this value on the wire.
    pub open spec fn spec_code(self) -> u32 {
        match self {
            AudioEndpointState::Idle => 0,
            AudioEndpointState::Offline => 1,
            AudioEndpointState::Active => 2,
        }
    }

    /// The word that carries this value on the wire.
    #[verifier::when_used_as_spec(spec_code)]
    pub fn code(self) -> (c: u32)
        ensures
            c == self.spec_code(),
    {
        match self {
            AudioEndpointState::Idle => 0,
            AudioEndpointState::Offline => 1,
            AudioEndpointState::Active => 2,
        }
    }
}

/// Direction of an audio stream.
#[derive(Clone, Copy, Debug, PartialEq, Eq, Structural)]
pub enum AudioStreamDirection {
    Playback,
    Capture,
}

impl AudioStreamDirection {
    /// The word that carries this value on the wire.
    pub open spec fn spec_code(self) -> u32 {
        match self {
            AudioStreamDirection::Playback => 0,
            AudioStreamDirection::Capture => 1,
        }
    }

    /// The word that carries this value on the wire.
    #[verifier::when_used_as_spec(spec_code)]
    pub fn code(self) -> (c: u32)
        ensures
            c == self.spec_code(),
    {
        match self {
            AudioStreamDirection::Playback => 0,
            AudioStreamDirection::Capture => 1,
        }
    }
}

/// State of an audio stream.
#[derive(Clone, Copy, Debug, PartialEq, Eq, Structural)]
pub enum AudioStreamState {
    Idle,
    Active,
    Closed,
    Failed,
}

impl AudioStreamState {
    /// The word that carries this value on the wire.
    pub open spec fn spec_code(self) -> u32 {
        match self {
            AudioStreamState::Idle => 0,
            AudioStreamState::Active => 1,
            AudioStreamState::Closed => 2,
            AudioStreamState::Failed => 3,
        }
    }

    /// The word that carries this value on the wire.
    #[verifier::when_used_as_spec(spec_code)]
    pub fn code(self) -> (c: u32)
        ensures
            c == self.spec_code(),
    {
        match self {
            AudioStreamState::Idle => 0,
            AudioStreamState::Active => 1,
            AudioStreamState::Closed => 2,
            AudioStreamState::Failed => 3,
        }
    }
}

/// Error codes the kernel returns from a system call.
#[derive(Clone, Copy, Debug, PartialEq, Eq, Structural)]
pub enum SyscallErrorCode {
    Unsupported,
    InvalidCall,
    PermissionDenied,
    NotInitialized,
    InvalidArgument,
    BufferTooSmall,
    QueueEmpty,
    NotFound,
    Busy,
    CapacityExceeded,
}

impl SyscallErrorCode {
    /// The word that carries this value on the wire.
    pub open spec fn spec_code(self) -> u32 {
        match self {
            SyscallErrorCode::Unsupported => 0,
            SyscallErrorCode::InvalidCall => 1,
            SyscallErrorCode::PermissionDenied => 2,
            SyscallErrorCode::NotInitialized => 3,
            SyscallErrorCode::InvalidArgument => 4,
            SyscallErrorCode::BufferTooSmall => 5,
            SyscallErrorCode::QueueEmpty => 6,
            SyscallErrorCode::NotFound => 7,
            SyscallErrorCode::Busy => 8,
            SyscallErrorCode::CapacityExceeded => 9,
        }
    }

    /// The word that carries this value on the wire.
    #[verifier::when_used_as_spec(spec_code)]
    pub fn code(self) -> (c: u32)
        ensures
            c == self.spec_code(),
    {
        match self {
            SyscallErrorCode::Unsupported => 0,
            SyscallErrorCode::InvalidCall => 1,
            SyscallErrorCode::PermissionDenied => 2,
            SyscallErrorCode::NotInitialized => 3,
            SyscallErrorCode::InvalidArgument => 4,
            SyscallErrorCode::BufferTooSmall => 5,
            SyscallErrorCode::QueueEmpty => 6,
            SyscallErrorCode::NotFound => 7,
            SyscallErrorCode::Busy => 8,
            SyscallErrorCode::CapacityExceeded => 9,
        }
    }
}

/// Lifecycle phase of a managed service.
#[derive(Clone, Copy, Debug, PartialEq, Eq, Structural)]
pub enum ManagerServicePhase {
    Dormant,
    WaitingDependencies,
    Starting,
    Ready,
    Backoff,
    Degraded,
    Exited,
}

impl ManagerServicePhase {
    /// The word that carries this value on the wire.
    pub open spec fn spec_code(self) -> u32 {
        match self {
            ManagerServicePhase::Dormant => 0,
            ManagerServicePhase::WaitingDependencies => 1,
            ManagerServicePhase::Starting => 2,
            ManagerServicePhase::Ready => 3,
            ManagerServicePhase::Backoff => 4,
            ManagerServicePhase::Degraded => 5,
            ManagerServicePhase::Exited => 6,
        }
    }

    /// The word that carries this value on the wire.
    #[verifier::when_used_as_spec(spec_code)]
    pub fn code(self) -> (c: u32)
        ensures
            c == self.spec_code(),
    {
        match self {
            ManagerServicePhase::Dormant => 0,
            ManagerServicePhase::WaitingDependencies => 1,
            ManagerServicePhase::Starting => 2,
            ManagerServicePhase::Ready => 3,
            ManagerServicePhase::Backoff => 4,
            ManagerServicePhase::Degraded => 5,
            ManagerServicePhase::Exited => 6,
        }
    }
}

/// Outcome of a root-manager request.
#[derive(Clone, Copy, Debug, PartialEq, Eq, Structural)]
pub enum ManagerStatus {
    Success,
    Denied,
    NotFound,
    Busy,
    Failed,
}

impl ManagerStatus {
    /// The word that carries this value on the wire.
    pub open spec fn spec_code(self) -> u32 {
        match self {
            ManagerStatus::Success => 0,
            ManagerStatus::Denied => 1,
            ManagerStatus::NotFound => 2,
            ManagerStatus::Busy => 3,
            ManagerStatus::Failed => 4,
        }
    }

    /// The word that carries this value on the wire.
    #[verifier::when_used_as_spec(spec_code)]
    pub fn code(self) -> (c: u32)
        ensures
            c == self.spec_code(),
    {
        match self {
            ManagerStatus::Success => 0,
            ManagerStatus::Denied => 1,
            ManagerStatus::NotFound => 2,
            ManagerStatus::Busy => 3,
            ManagerStatus::Failed => 4,
        }
    }
}

/// When the root manager starts a service.
#[derive(Clone, Copy, Debug, PartialEq, Eq, Structural)]
pub enum ManagerStartupMode {
    Eager,
    OnDemand,
}

impl ManagerStartupMode {
    /// The word that carries this value on the wire.
    pub open spec fn spec_code(self) -> u32 {
        match self {
            ManagerStartupMode::Eager => 0,
            ManagerStartupMode::OnDemand => 1,
        }
    }

    /// The word that carries this value on the wire.
    #[verifier::when_used_as_spec(spec_code)]
    pub fn code(self) -> (c: u32)
        ensures
            c == self.spec_code(),
    {
        match self {
            ManagerStartupMode::Eager => 0,
            ManagerStartupMode::OnDemand => 1,
        }
    }
}

/// Whether boot depends on a service.
#[derive(Clone, Copy, Debug, PartialEq, Eq, Structural)]
pub enum ManagerAvailability {
    Required,
    Optional,
}

impl ManagerAvailability {
    /// The word that carries this value on the wire.
    pub open spec fn spec_code(self) -> u32 {
        match self {
            ManagerAvailability::Required => 0,
            ManagerAvailability::Optional => 1,
        }
    }

    /// The word that carries this value on the wire.
    #[verifier::when_used_as_spec(spec_code)]
    pub fn code(self) -> (c: u32)
        ensures
            c == self.spec_code(),
    {
        match self {
            ManagerAvailability::Required => 0,
            ManagerAvailability::Optional => 1,
        }
    }
}

/// Lookup policy of a service grant.
#[derive(Clone, Copy, Debug, PartialEq, Eq, Structural)]
pub enum ManagerLookupPolicy {
    Default,
    Revoked,
}

impl ManagerLookupPolicy {
    /// The word that carries this value on the wire.
    pub open spec fn spec_code(self) -> u32 {
        match self {
            ManagerLookupPolicy::Default => 0,
            ManagerLookupPolicy::Revoked => 1,
        }
    }

    /// The word that carries this value on the wire.
    #[verifier::when_used_as_spec(spec_code)]
    pub fn code(self) -> (c: u32)
        ensures
            c == self.spec_code(),
    {
        match self {
            ManagerLookupPolicy::Default => 0,
            ManagerLookupPolicy::Revoked => 1,
        }
    }
}

/// Action the root manager applies to a service.
#[derive(Clone, Copy, Debug, PartialEq, Eq, Structural)]
pub enum ManagerAction {
    Restart,
}

impl ManagerAction {
    /// The word that carries this value on the wire.
    pub open spec fn spec_code(self) -> u32 {
        match self {
            ManagerAction::Restart => 0,
        }
    }

    /// The word that carries this value on the wire.
    #[verifier::when_used_as_spec(spec_code)]
    pub fn code(self) -> (c: u32)
        ensures
            c == self.spec_code(),
    {
        match self {
            ManagerAction::Restart => 0,
        }
    }
}

/// Outcome of a package-service request.
#[derive(Clone, Copy, Debug, PartialEq, Eq, Structural)]
pub enum PackageStatus {
    Success,
    NotFound,
    AlreadyInstalled,
    NotInstalled,
    Busy,
    Denied,
    IntegrityFailed,
    End,
    NoChange,
    NoRollback,
    Unsupported,
    Offline,
    Interrupted,
    VerificationFailed,
}

impl PackageStatus {
    /// The word that carries this value on the wire.
    pub open spec fn spec_code(self) -> u32 {
        match self {
            PackageStatus::Success => 0,
            PackageStatus::NotFound => 1,
            PackageStatus::AlreadyInstalled => 2,
            PackageStatus::NotInstalled => 3,
            PackageStatus::Busy => 4,
            PackageStatus::Denied => 5,
            PackageStatus::IntegrityFailed => 6,
            PackageStatus::End => 7,
            PackageStatus::NoChange => 8,
            PackageStatus::NoRollback => 9,
            PackageStatus::Unsupported => 10,
            PackageStatus::Offline => 11,
            PackageStatus::Interrupted => 12,
            PackageStatus::VerificationFailed => 13,
        }
    }

    /// The word that carries this value on the wire.
    #[verifier::when_used_as_spec(spec_code)]
    pub fn code(self) -> (c: u32)
        ensures
            c == self.spec_code(),
    {
        match self {
            PackageStatus::Success => 0,
            PackageStatus::NotFound => 1,
            PackageStatus::AlreadyInstalled => 2,
            PackageStatus::NotInstalled => 3,
            PackageStatus::Busy => 4,
            PackageStatus::Denied => 5,
            PackageStatus::IntegrityFailed => 6,
            PackageStatus::End => 7,
            PackageStatus::NoChange => 8,
            PackageStatus::NoRollback => 9,
            PackageStatus::Unsupported => 10,
            PackageStatus::Offline => 11,
            PackageStatus::Interrupted => 12,
            PackageStatus::VerificationFailed => 13,
        }
    }
}

/// How a package repository is trusted.
#[derive(Clone, Copy, Debug, PartialEq, Eq, Structural)]
pub enum PackageRepositoryTrustMode {
    Unsigned,
    Boot,
    PinnedDigest,
}

impl PackageRepositoryTrustMode {
    /// The word that carries this value on the wire.
    pub open spec fn spec_code(self) -> u32 {
        match self {
            PackageRepositoryTrustMode::Unsigned => 0,
            PackageRepositoryTrustMode::Boot => 1,
            PackageRepositoryTrustMode::PinnedDigest => 2,
        }
    }

    /// The word that carries this value on the wire.
    #[verifier::when_used_as_spec(spec_code)]
    pub fn code(self) -> (c: u32)
        ensures
            c == self.spec_code(),
    {
        match self {
            PackageRepositoryTrustMode::Unsigned => 0,
            PackageRepositoryTrustMode::Boot => 1,
            PackageRepositoryTrustMode::PinnedDigest => 2,
        }
    }
}

/// Sync state of a package repository.
#[derive(Clone, Copy, Debug, PartialEq, Eq, Structural)]
pub enum PackageRepositorySyncState {
    Idle,
    Ready,
    Offline,
    Failed,
}

impl PackageRepositorySyncState {
    /// The word that carries this value on the wire.
    pub open spec fn spec_code(self) -> u32 {
        match self {
            PackageRepositorySyncState::Idle => 0,
            PackageRepositorySyncState::Ready => 1,
            PackageRepositorySyncState::Offline => 2,
            PackageRepositorySyncState::Failed => 3,
        }
    }

    /// The word that carries this value on the wire.
    #[verifier::when_used_as_spec(spec_code)]
    pub fn code(self) -> (c: u32)
        ensures
            c == self.spec_code(),
    {
        match self {
            PackageRepositorySyncState::Idle => 0,
            PackageRepositorySyncState::Ready => 1,
            PackageRepositorySyncState::Offline => 2,
            PackageRepositorySyncState::Failed => 3,
        }
    }
}

/// Trust established for a package.
#[derive(Clone, Copy, Debug, PartialEq, Eq, Structural)]
pub enum PackageTrustState {
    Unverified,
    BootTrusted,
    DigestPinned,
    VerificationFailed,
}

impl PackageTrustState {
    /// The word that carries this value on the wire.
    pub open spec fn spec_code(self) -> u32 {
        match self {
            PackageTrustState::Unverified => 0,
            PackageTrustState::BootTrusted => 1,
            PackageTrustState::DigestPinned => 2,
            PackageTrustState::VerificationFailed => 3,
        }
    }

    /// The word that carries this value on the wire.
    #[verifier::when_used_as_spec(spec_code)]
    pub fn code(self) -> (c: u32)
        ensures
            c == self.spec_code(),
    {
        match self {
            PackageTrustState::Unverified => 0,
            PackageTrustState::BootTrusted => 1,
            PackageTrustState::DigestPinned => 2,
            PackageTrustState::VerificationFailed => 3,
        }
    }
}

/// Release channel of a package.
#[derive(Clone, Copy, Debug, PartialEq, Eq, Structural)]
pub enum PackageChannel {
    Stable,
    Beta,
    Canary,
}

impl PackageChannel {
    /// The word that carries this value on the wire.
    pub open spec fn spec_code(self) -> u32 {
        match self {
            PackageChannel::Stable => 0,
            PackageChannel::Beta => 1,
            PackageChannel::Canary => 2,
        }
    }

    /// The word that carries this value on the wire.
    #[verifier::when_used_as_spec(spec_code)]
    pub fn code(self) -> (c: u32)
        ensures
            c == self.spec_code(),
    {
        match self {
            PackageChannel::Stable => 0,
            PackageChannel::Beta => 1,
            PackageChannel::Canary => 2,
        }
    }
}

/// Deployment ring of a package.
#[derive(Clone, Copy, Debug, PartialEq, Eq, Structural)]
pub enum PackageRing {
    Production,
    Preview,
    Testing,
}

impl PackageRing {
    /// The word that carries this value on the wire.
    pub open spec fn spec_code(self) -> u32 {
        match self {
            PackageRing::Production => 0,
            PackageRing::Preview => 1,
            PackageRing::Testing => 2,
        }
    }

    /// The word that carries this value on the wire.
    #[verifier::when_used_as_spec(spec_code)]
    pub fn code(self) -> (c: u32)
        ensures
            c == self.spec_code(),
    {
        match self {
            PackageRing::Production => 0,
            PackageRing::Preview => 1,
            PackageRing::Testing => 2,
        }
    }
}

/// Maintenance pass over the package store.
#[derive(Clone, Copy, Debug, PartialEq, Eq, Structural)]
pub enum PackageMaintenanceAction {
    Repair,
    GarbageCollect,
}

impl PackageMaintenanceAction {
    /// The word that carries this value on the wire.
    pub open spec fn spec_code(self) -> u32 {
        match self {
            PackageMaintenanceAction::Repair => 0,
            PackageMaintenanceAction::GarbageCollect => 1,
        }
    }

    /// The word that carries this value on the wire.
    #[verifier::when_used_as_spec(spec_code)]
    pub fn code(self) -> (c: u32)
        ensures
            c == self.spec_code(),
    {
        match self {
            PackageMaintenanceAction::Repair => 0,
            PackageMaintenanceAction::GarbageCollect => 1,
        }
    }
}

/// Build target of the developer service.
#[derive(Clone, Copy, Debug, PartialEq, Eq, Structural)]
pub enum DeveloperTarget {
    NativeX64,
    LinuxX64,
    WindowsX64,
    MacosX64,
}

impl DeveloperTarget {
    /// The word that carries this value on the wire.
    pub open spec fn spec_code(self) -> u32 {
        match self {
            DeveloperTarget::NativeX64 => 0,
            DeveloperTarget::LinuxX64 => 1,
            DeveloperTarget::WindowsX64 => 2,
            DeveloperTarget::MacosX64 => 3,
        }
    }

    /// The word that carries this value on the wire.
    #[verifier::when_used_as_spec(spec_code)]
    pub fn code(self) -> (c: u32)
        ensures
            c == self.spec_code(),
    {
        match self {
            DeveloperTarget::NativeX64 => 0,
            DeveloperTarget::LinuxX64 => 1,
            DeveloperTarget::WindowsX64 => 2,
            DeveloperTarget::MacosX64 => 3,
        }
    }
}

/// Availability of a toolchain.
#[derive(Clone, Copy, Debug, PartialEq, Eq, Structural)]
pub enum DeveloperToolchainState {
    Installed,
    RemoteOnly,
}

impl DeveloperToolchainState {
    /// The word that carries this value on the wire.
    pub open spec fn spec_code(self) -> u32 {
        match self {
            DeveloperToolchainState::Installed => 0,
            DeveloperToolchainState::RemoteOnly => 1,
        }
    }

    /// The word that carries this value on the wire.
    #[verifier::when_used_as_spec(spec_code)]
    pub fn code(self) -> (c: u32)
        ensures
            c == self.spec_code(),
    {
        match self {
            DeveloperToolchainState::Installed => 0,
            DeveloperToolchainState::RemoteOnly => 1,
        }
    }
}

/// Format of a build artifact.
#[derive(Clone, Copy, Debug, PartialEq, Eq, Structural)]
pub enum DeveloperArtifactFormat {
    ServiceOsFlat,
    Elf64,
    Pe32Plus,
    MachO64,
}

impl DeveloperArtifactFormat {
    /// The word that carries this value on the wire.
    pub open spec fn spec_code(self) -> u32 {
        match self {
            DeveloperArtifactFormat::ServiceOsFlat => 0,
            DeveloperArtifactFormat::Elf64 => 1,
            DeveloperArtifactFormat::Pe32Plus => 2,
            DeveloperArtifactFormat::MachO64 => 3,
        }
    }

    /// The word that carries this value on the wire.
    #[verifier::when_used_as_spec(spec_code)]
    pub fn code(self) -> (c: u32)
        ensures
            c == self.spec_code(),
    {
        match self {
            DeveloperArtifactFormat::ServiceOsFlat => 0,
            DeveloperArtifactFormat::Elf64 => 1,
            DeveloperArtifactFormat::Pe32Plus => 2,
            DeveloperArtifactFormat::MachO64 => 3,
        }
    }
}

/// State of a build job.
#[derive(Clone, Copy, Debug, PartialEq, Eq, Structural)]
pub enum DeveloperJobState {
    Queued,
    Running,
    Succeeded,
    Failed,
    Unsupported,
}

impl DeveloperJobState {
    /// The word that carries this value on the wire.
    pub open spec fn spec_code(self) -> u32 {
        match self {
            DeveloperJobState::Queued => 0,
            DeveloperJobState::Running => 1,
            DeveloperJobState::Succeeded => 2,
            DeveloperJobState::Failed => 3,
            DeveloperJobState::Unsupported => 4,
        }
    }

    /// The word that carries this value on the wire.
    #[verifier::when_used_as_spec(spec_code)]
    pub fn code(self) -> (c: u32)
        ensures
            c == self.spec_code(),
    {
        match self {
            DeveloperJobState::Queued => 0,
            DeveloperJobState::Running => 1,
            DeveloperJobState::Succeeded => 2,
            DeveloperJobState::Failed => 3,
            DeveloperJobState::Unsupported => 4,
        }
    }
}

/// Outcome of a developer-service request.
#[derive(Clone, Copy, Debug, PartialEq, Eq, Structural)]
pub enum DeveloperStatus {
    Success,
    NotFound,
    Busy,
    Denied,
    Unsupported,
}

impl DeveloperStatus {
    /// The word that carries this value on the wire.
    pub open spec fn spec_code(self) -> u32 {
        match self {
            DeveloperStatus::Success => 0,
            DeveloperStatus::NotFound => 1,
            DeveloperStatus::Busy => 2,
            DeveloperStatus::Denied => 3,
            DeveloperStatus::Unsupported => 4,
        }
    }

    /// The word that carries this value on the wire.
    #[verifier::when_used_as_spec(spec_code)]
    pub fn code(self) -> (c: u32)
        ensures
            c == self.spec_code(),
    {
        match self {
            DeveloperStatus::Success => 0,
            DeveloperStatus::NotFound => 1,
            DeveloperStatus::Busy => 2,
            DeveloperStatus::Denied => 3,
            DeveloperStatus::Unsupported => 4,
        }
    }
}

/// Driver behind a display output.
#[derive(Clone, Copy, Debug, PartialEq, Eq, Structural)]
pub enum DisplayOutputBackend {
    Unknown,
    BootFramebuffer,
}

impl DisplayOutputBackend {
    /// The word that carries this value on the wire.
    pub open spec fn spec_code(self) -> u32 {
        match self {
            DisplayOutputBackend::Unknown => 0,
            DisplayOutputBackend::BootFramebuffer => 1,
        }
    }

    /// The word that carries this value on the wire.
    #[verifier::when_used_as_spec(spec_code)]
    pub fn code(self) -> (c: u32)
        ensures
            c == self.spec_code(),
    {
        match self {
            DisplayOutputBackend::Unknown => 0,
            DisplayOutputBackend::BootFramebuffer => 1,
        }
    }
}

/// Connection state of a display output.
#[derive(Clone, Copy, Debug, PartialEq, Eq, Structural)]
pub enum DisplayOutputState {
    Disconnected,
    Connected,
}

impl DisplayOutputState {
    /// The word that carries this value on the wire.
    pub open spec fn spec_code(self) -> u32 {
        match self {
            DisplayOutputState::Disconnected => 0,
            DisplayOutputState::Connected => 1,
        }
    }

    /// The word that carries this value on the wire.
    #[verifier::when_used_as_spec(spec_code)]
    pub fn code(self) -> (c: u32)
        ensures
            c == self.spec_code(),
    {
        match self {
            DisplayOutputState::Disconnected => 0,
            DisplayOutputState::Connected => 1,
        }
    }
}

/// Pixel format of a display output.
#[derive(Clone, Copy, Debug, PartialEq, Eq, Structural)]
pub enum DisplayPixelFormat {
    Unknown,
    Xrgb8888,
    Bgrx8888,
}

impl DisplayPixelFormat {
    /// The word that carries this value on the wire.
    pub open spec fn spec_code(self) -> u32 {
        match self {
            DisplayPixelFormat::Unknown => 0,
            DisplayPixelFormat::Xrgb8888 => 1,
            DisplayPixelFormat::Bgrx8888 => 2,
        }
    }

    /// The word that carries this value on the wire.
    #[verifier::when_used_as_spec(spec_code)]
    pub fn code(self) -> (c: u32)
        ensures
            c == self.spec_code(),
    {
        match self {
            DisplayPixelFormat::Unknown => 0,
            DisplayPixelFormat::Xrgb8888 => 1,
            DisplayPixelFormat::Bgrx8888 => 2,
        }
    }
}

/// Outcome of a graphics-service request.
#[derive(Clone, Copy, Debug, PartialEq, Eq, Structural)]
pub enum GraphicsStatus {
    Success,
    NotFound,
    Busy,
    Denied,
    CapacityExceeded,
}

impl GraphicsStatus {
    /// The word that carries this value on the wire.
    pub open spec fn spec_code(self) -> u32 {
        match self {
            GraphicsStatus::Success => 0,
            GraphicsStatus::NotFound => 1,
            GraphicsStatus::Busy => 2,
            GraphicsStatus::Denied => 3,
            GraphicsStatus::CapacityExceeded => 4,
        }
    }

    /// The word that carries this value on the wire.
    #[verifier::when_used_as_spec(spec_code)]
    pub fn code(self) -> (c: u32)
        ensures
            c == self.spec_code(),
    {
        match self {
            GraphicsStatus::Success => 0,
            GraphicsStatus::NotFound => 1,
            GraphicsStatus::Busy => 2,
            GraphicsStatus::Denied => 3,
            GraphicsStatus::CapacityExceeded => 4,
        }
    }
}

/// Outcome of a desktop-shell request.
#[derive(Clone, Copy, Debug, PartialEq, Eq, Structural)]
pub enum DesktopStatus {
    Success,
    NotFound,
    Busy,
    Denied,
}

impl DesktopStatus {
    /// The word that carries this value on the wire.
    pub open spec fn spec_code(self) -> u32 {
        match self {
            DesktopStatus::Success => 0,
            DesktopStatus::NotFound => 1,
            DesktopStatus::Busy => 2,
            DesktopStatus::Denied => 3,
        }
    }

    /// The word that carries this value on the wire.
    #[verifier::when_used_as_spec(spec_code)]
    pub fn code(self) -> (c: u32)
        ensures
            c == self.spec_code(),
    {
        match self {
            DesktopStatus::Success => 0,
            DesktopStatus::NotFound => 1,
            DesktopStatus::Busy => 2,
            DesktopStatus::Denied => 3,
        }
    }
}

/// An app the desktop shell can launch.
#[derive(Clone, Copy, Debug, PartialEq, Eq, Structural)]
pub enum DesktopAppId {
    Settings,
    Files,
    Monitor,
    Terminal,
    SoftwareCenter,
}

impl DesktopAppId {
    /// The word that carries this value on the wire.
    pub open spec fn spec_code(self) -> u32 {
        match self {
            DesktopAppId::Settings => 0,
            DesktopAppId::Files => 1,
            DesktopAppId::Monitor => 2,
            DesktopAppId::Terminal => 3,
            DesktopAppId::SoftwareCenter => 4,
        }
    }

    /// The word that carries this value on the wire.
    #[verifier::when_used_as_spec(spec_code)]
    pub fn code(self) -> (c: u32)
        ensures
            c == self.spec_code(),
    {
        match self {
            DesktopAppId::Settings => 0,
            DesktopAppId::Files => 1,
            DesktopAppId::Monitor => 2,
            DesktopAppId::Terminal => 3,
            DesktopAppId::SoftwareCenter => 4,
        }
    }
}

/// What a pointer drag on the desktop does.
#[derive(Clone, Copy, Debug, PartialEq, Eq, Structural)]
pub enum DesktopDragMode {
    Idle,
    Move,
    Resize,
}

impl DesktopDragMode {
    /// The word that carries this value on the wire.
    pub open spec fn spec_code(self) -> u32 {
        match self {
            DesktopDragMode::Idle => 0,
            DesktopDragMode::Move => 1,
            DesktopDragMode::Resize => 2,
        }
    }

    /// The word that carries this value on the wire.
    #[verifier::when_used_as_spec(spec_code)]
    pub fn code(self) -> (c: u32)
        ensures
            c == self.spec_code(),
    {
        match self {
            DesktopDragMode::Idle => 0,
            DesktopDragMode::Move => 1,
            DesktopDragMode::Resize => 2,
        }
    }
}

/// Window action of the desktop shell.
#[derive(Clone, Copy, Debug, PartialEq, Eq, Structural)]
pub enum DesktopWindowAction {
    FocusNext,
    Close,
    Minimize,
    Restore,
    Maximize,
    Move,
    Resize,
}

impl DesktopWindowAction {
    /// The word that carries this value on the wire.
    pub open spec fn spec_code(self) -> u32 {
        match self {
            DesktopWindowAction::FocusNext => 0,
            DesktopWindowAction::Close => 1,
            DesktopWindowAction::Minimize => 2,
            DesktopWindowAction::Restore => 3,
            DesktopWindowAction::Maximize => 4,
            DesktopWindowAction::Move => 5,
            DesktopWindowAction::Resize => 6,
        }
    }

    /// The word that carries this value on the wire.
    #[verifier::when_used_as_spec(spec_code)]
    pub fn code(self) -> (c: u32)
        ensures
            c == self.spec_code(),
    {
        match self {
            DesktopWindowAction::FocusNext => 0,
            DesktopWindowAction::Close => 1,
            DesktopWindowAction::Minimize => 2,
            DesktopWindowAction::Restore => 3,
            DesktopWindowAction::Maximize => 4,
            DesktopWindowAction::Move => 5,
            DesktopWindowAction::Resize => 6,
        }
    }
}

/// What a workspace request asks of the desktop shell.
#[derive(Clone, Copy, Debug, PartialEq, Eq, Structural)]
pub enum DesktopWorkspaceAction {
    Query,
    Switch,
    Next,
    Previous,
}

impl DesktopWorkspaceAction {
    /// The word that carries this value on the wire.
    pub open spec fn spec_code(self) -> u32 {
        match self {
            DesktopWorkspaceAction::Query => 0,
            DesktopWorkspaceAction::Switch => 1,
            DesktopWorkspaceAction::Next => 2,
            DesktopWorkspaceAction::Previous => 3,
        }
    }

    /// The word that carries this value on the wire.
    #[verifier::when_used_as_spec(spec_code)]
    pub fn code(self) -> (c: u32)
        ensures
            c == self.spec_code(),
    {
        match self {
            DesktopWorkspaceAction::Query => 0,
            DesktopWorkspaceAction::Switch => 1,
            DesktopWorkspaceAction::Next => 2,
            DesktopWorkspaceAction::Previous => 3,
        }
    }
}

/// Input event forwarded to the desktop shell.
#[derive(Clone, Copy, Debug, PartialEq, Eq, Structural)]
pub enum DesktopInputAction {
    PointerMove,
    PointerDown,
    PointerUp,
    PointerScroll,
    Click,
    KeyDown,
    KeyUp,
    TextInput,
}

impl DesktopInputAction {
    /// The word that carries this value on the wire.
    pub open spec fn spec_code(self) -> u32 {
        match self {
            DesktopInputAction::PointerMove => 0,
            DesktopInputAction::PointerDown => 1,
            DesktopInputAction::PointerUp => 2,
            DesktopInputAction::PointerScroll => 3,
            DesktopInputAction::Click => 4,
            DesktopInputAction::KeyDown => 5,
            DesktopInputAction::KeyUp => 6,
            DesktopInputAction::TextInput => 7,
        }
    }

    /// The word that carries this value on the wire.
    #[verifier::when_used_as_spec(spec_code)]
    pub fn code(self) -> (c: u32)
        ensures
            c == self.spec_code(),
    {
        match self {
            DesktopInputAction::PointerMove => 0,
            DesktopInputAction::PointerDown => 1,
            DesktopInputAction::PointerUp => 2,
            DesktopInputAction::PointerScroll => 3,
            DesktopInputAction::Click => 4,
            DesktopInputAction::KeyDown => 5,
            DesktopInputAction::KeyUp => 6,
            DesktopInputAction::TextInput => 7,
        }
    }
}

/// Pointer event delivered to an app.
#[derive(Clone, Copy, Debug, PartialEq, Eq, Structural)]
pub enum AppPointerAction {
    Move,
    Down,
    Up,
}

impl AppPointerAction {
    /// The word that carries this value on the wire.
    pub open spec fn spec_code(self) -> u32 {
        match self {
            AppPointerAction::Move => 0,
            AppPointerAction::Down => 1,
            AppPointerAction::Up => 2,
        }
    }

    /// The word that carries this value on the wire.
    #[verifier::when_used_as_spec(spec_code)]
    pub fn code(self) -> (c: u32)
        ensures
            c == self.spec_code(),
    {
        match self {
            AppPointerAction::Move => 0,
            AppPointerAction::Down => 1,
            AppPointerAction::Up => 2,
        }
    }
}

/// Key event delivered to an app.
#[derive(Clone, Copy, Debug, PartialEq, Eq, Structural)]
pub enum AppKeyAction {
    Down,
    Up,
}

impl AppKeyAction {
    /// The word that carries this value on the wire.
    pub open spec fn spec_code(self) -> u32 {
        match self {
            AppKeyAction::Down => 0,
            AppKeyAction::Up => 1,
        }
    }

    /// The word that carries this value on the wire.
    #[verifier::when_used_as_spec(spec_code)]
    pub fn code(self) -> (c: u32)
        ensures
            c == self.spec_code(),
    {
        match self {
            AppKeyAction::Down => 0,
            AppKeyAction::Up => 1,
        }
    }
}

/// Outcome of a log-service request.
#[derive(Clone, Copy, Debug, PartialEq, Eq, Structural)]
pub enum LogStatus {
    Success,
    Busy,
    Denied,
}

impl LogStatus {
    /// The word that carries this value on the wire.
    pub open spec fn spec_code(self) -> u32 {
        match self {
            LogStatus::Success => 0,
            LogStatus::Busy => 1,
            LogStatus::Denied => 2,
        }
    }

    /// The word that carries this value on the wire.
    #[verifier::when_used_as_spec(spec_code)]
    pub fn code(self) -> (c: u32)
        ensures
            c == self.spec_code(),
    {
        match self {
            LogStatus::Success => 0,
            LogStatus::Busy => 1,
            LogStatus::Denied => 2,
        }
    }
}

/// Outcome of a log record query.
#[derive(Clone, Copy, Debug, PartialEq, Eq, Structural)]
pub enum LogQueryStatus {
    Found,
    NotFound,
}

impl LogQueryStatus {
    /// The word that carries this value on the wire.
    pub open spec fn spec_code(self) -> u32 {
        match self {
            LogQueryStatus::Found => 0,
            LogQueryStatus::NotFound => 1,
        }
    }

    /// The word that carries this value on the wire.
    #[verifier::when_used_as_spec(spec_code)]
    pub fn code(self) -> (c: u32)
        ensures
            c == self.spec_code(),
    {
        match self {
            LogQueryStatus::Found => 0,
            LogQueryStatus::NotFound => 1,
        }
    }
}

/// Kind of an input event the kernel reports.
#[derive(Clone, Copy, Debug, PartialEq, Eq, Structural)]
pub enum InputEventKind {
    Unknown,
    PointerMotion,
    PointerButton,
    Key,
    PointerDelta,
    PointerScroll,
}

impl InputEventKind {
    /// The word that carries this value on the wire.
    pub open spec fn spec_code(self) -> u32 {
        match self {
            InputEventKind::Unknown => 0,
            InputEventKind::PointerMotion => 1,
            InputEventKind::PointerButton => 2,
            InputEventKind::Key => 3,
            InputEventKind::PointerDelta => 4,
            InputEventKind::PointerScroll => 5,
        }
    }

    /// The word that carries this value on the wire.
    #[verifier::when_used_as_spec(spec_code)]
    pub fn code(self) -> (c: u32)
        ensures
            c == self.spec_code(),
    {
        match self {
            InputEventKind::Unknown => 0,
            InputEventKind::PointerMotion => 1,
            InputEventKind::PointerButton => 2,
            InputEventKind::Key => 3,
            InputEventKind::PointerDelta => 4,
            InputEventKind::PointerScroll => 5,
        }
    }
}

/// Pointer button of an input event.
#[derive(Clone, Copy, Debug, PartialEq, Eq, Structural)]
pub enum InputButton {
    Left,
    Right,
    Middle,
}

impl InputButton {
    /// The word that carries this value on the wire.
    pub open spec fn spec_code(self) -> u32 {
        match self {
            InputButton::Left => 0,
            InputButton::Right => 1,
            InputButton::Middle => 2,
        }
    }

    /// The word that carries this value on the wire.
    #[verifier::when_used_as_spec(spec_code)]
    pub fn code(self) -> (c: u32)
        ensures
            c == self.spec_code(),
    {
        match self {
            InputButton::Left => 0,
            InputButton::Right => 1,
            InputButton::Middle => 2,
        }
    }
}

/// Lifecycle notice the root manager sends a service.
#[derive(Clone, Copy, Debug, PartialEq, Eq, Structural)]
pub enum LifecycleEvent {
    Starting,
    Ready,
    Failed,
    Stopped,
    Restarting,
}

impl LifecycleEvent {
    /// The word that carries this value on the wire.
    pub open spec fn spec_code(self) -> u32 {
        match self {
            LifecycleEvent::Starting => 0,
            LifecycleEvent::Ready => 1,
            LifecycleEvent::Failed => 2,
            LifecycleEvent::Stopped => 3,
            LifecycleEvent::Restarting => 4,
        }
    }

    /// The word that carries this value on the wire.
    #[verifier::when_used_as_spec(spec_code)]
    pub fn code(self) -> (c: u32)
        ensures
            c == self.spec_code(),
    {
        match self {
            LifecycleEvent::Starting => 0,
            LifecycleEvent::Ready => 1,
            LifecycleEvent::Failed => 2,
            LifecycleEvent::Stopped => 3,
            LifecycleEvent::Restarting => 4,
        }
    }
}

/// Message tags of the Control protocol.
#[derive(Clone, Copy, Debug, PartialEq, Eq, Structural)]
pub enum ControlTag {
    Register,
    LookupRequest,
    LookupReply,
    Startup,
    Lifecycle,
}

impl ControlTag {
    /// The word that carries this value on the wire.
    pub open spec fn spec_code(self) -> u32 {
        match self {
            ControlTag::Register => 0x101,
            ControlTag::LookupRequest => 0x102,
            ControlTag::LookupReply => 0x103,
            ControlTag::Startup => 0x104,
            ControlTag::Lifecycle => 0x105,
        }
    }

    /// The word that carries this value on the wire.
    #[verifier::when_used_as_spec(spec_code)]
    pub fn code(self) -> (c: u32)
        ensures
            c == self.spec_code(),
    {
        match self {
            ControlTag::Register => 0x101,
            ControlTag::LookupRequest => 0x102,
            ControlTag::LookupReply => 0x103,
            ControlTag::Startup => 0x104,
            ControlTag::Lifecycle => 0x105,
        }
    }
}

/// Message tags of the Config protocol.
#[derive(Clone, Copy, Debug, PartialEq, Eq, Structural)]
pub enum ConfigTag {
    ReadRequest,
    ReadReply,
    WriteRequest,
    WriteReply,
}

impl ConfigTag {
    /// The word that carries this value on the wire.
    pub open spec fn spec_code(self) -> u32 {
        match self {
            ConfigTag::ReadRequest => 0x201,
            ConfigTag::ReadReply => 0x202,
            ConfigTag::WriteRequest => 0x203,
            ConfigTag::WriteReply => 0x204,
        }
    }

    /// The word that carries this value on the wire.
    #[verifier::when_used_as_spec(spec_code)]
    pub fn code(self) -> (c: u32)
        ensures
            c == self.spec_code(),
    {
        match self {
            ConfigTag::ReadRequest => 0x201,
            ConfigTag::ReadReply => 0x202,
            ConfigTag::WriteRequest => 0x203,
            ConfigTag::WriteReply => 0x204,
        }
    }
}

/// Message tags of the Console protocol.
#[derive(Clone, Copy, Debug, PartialEq, Eq, Structural)]
pub enum ConsoleTag {
    WriteRecord,
    SessionOpenRequest,
    SessionOpenReply,
    SessionWriteText,
    SessionReadLineRequest,
    SessionReadLineReply,
}

impl ConsoleTag {
    /// The word that carries this value on the wire.
    pub open spec fn spec_code(self) -> u32 {
        match self {
            ConsoleTag::WriteRecord => 0x301,
            ConsoleTag::SessionOpenRequest => 0x302,
            ConsoleTag::SessionOpenReply => 0x303,
            ConsoleTag::SessionWriteText => 0x304,
            ConsoleTag::SessionReadLineRequest => 0x305,
            ConsoleTag::SessionReadLineReply => 0x306,
        }
    }

    /// The word that carries this value on the wire.
    #[verifier::when_used_as_spec(spec_code)]
    pub fn code(self) -> (c: u32)
        ensures
            c == self.spec_code(),
    {
        match self {
            ConsoleTag::WriteRecord => 0x301,
            ConsoleTag::SessionOpenRequest => 0x302,
            ConsoleTag::SessionOpenReply => 0x303,
            ConsoleTag::SessionWriteText => 0x304,
            ConsoleTag::SessionReadLineRequest => 0x305,
            ConsoleTag::SessionReadLineReply => 0x306,
        }
    }
}

/// Message tags of the Log protocol.
#[derive(Clone, Copy, Debug, PartialEq, Eq, Structural)]
pub enum LogTag {
    Record,
    QueryInfoRequest,
    QueryInfoReply,
    QueryRecordRequest,
    QueryRecordReply,
    SubscribeRequest,
    SubscribeReply,
    StreamRecord,
}

impl LogTag {
    /// The word that carries this value on the wire.
    pub open spec fn spec_code(self) -> u32 {
        match self {
            LogTag::Record => 0x401,
            LogTag::QueryInfoRequest => 0x402,
            LogTag::QueryInfoReply => 0x403,
            LogTag::QueryRecordRequest => 0x404,
            LogTag::QueryRecordReply => 0x405,
            LogTag::SubscribeRequest => 0x406,
            LogTag::SubscribeReply => 0x407,
            LogTag::StreamRecord => 0x408,
        }
    }

    /// The word that carries this value on the wire.
    #[verifier::when_used_as_spec(spec_code)]
    pub fn code(self) -> (c: u32)
        ensures
            c == self.spec_code(),
    {
        match self {
            LogTag::Record => 0x401,
            LogTag::QueryInfoRequest => 0x402,
            LogTag::QueryInfoReply => 0x403,
            LogTag::QueryRecordRequest => 0x404,
            LogTag::QueryRecordReply => 0x405,
            LogTag::SubscribeRequest => 0x406,
            LogTag::SubscribeReply => 0x407,
            LogTag::StreamRecord => 0x408,
        }
    }
}

/// Message tags of the Storage protocol.
#[derive(Clone, Copy, Debug, PartialEq, Eq, Structural)]
pub enum StorageTag {
    OpenRequest,
    OpenReply,
    ReadRequest,
    ReadReply,
    CloseRequest,
    ListRequest,
    ListReply,
    DirectoryListRequest,
    DirectoryListReply,
    DirectoryOpenRequest,
    DirectoryOpenReply,
    DirectoryCreateRequest,
    DirectoryCreateReply,
    DirectoryRemoveRequest,
    DirectoryRemoveReply,
    DirectoryOpenFileRequest,
    DirectoryOpenFileReply,
    WriteRequest,
    WriteReply,
    DirectoryReadRequest,
    DirectoryReadReply,
    MountListRequest,
    MountListReply,
    DirectoryTraverseRequest,
    DirectoryTraverseReply,
}

impl StorageTag {
    /// The word that carries this value on the wire.
    pub open spec fn spec_code(self) -> u32 {
        match self {
            StorageTag::OpenRequest => 0x501,
            StorageTag::OpenReply => 0x502,
            StorageTag::ReadRequest => 0x503,
            StorageTag::ReadReply => 0x504,
            StorageTag::CloseRequest => 0x505,
            StorageTag::ListRequest => 0x506,
            StorageTag::ListReply => 0x507,
            StorageTag::DirectoryListRequest => 0x508,
            StorageTag::DirectoryListReply => 0x509,
            StorageTag::DirectoryOpenRequest => 0x50a,
            StorageTag::DirectoryOpenReply => 0x50b,
            StorageTag::DirectoryCreateRequest => 0x50c,
            StorageTag::DirectoryCreateReply => 0x50d,
            StorageTag::DirectoryRemoveRequest => 0x50e,
            StorageTag::DirectoryRemoveReply => 0x50f,
            StorageTag::DirectoryOpenFileRequest => 0x510,
            StorageTag::DirectoryOpenFileReply => 0x511,
            StorageTag::WriteRequest => 0x512,
            StorageTag::WriteReply => 0x513,
            StorageTag::DirectoryReadRequest => 0x514,
            StorageTag::DirectoryReadReply => 0x515,
            StorageTag::MountListRequest => 0x516,
            StorageTag::MountListReply => 0x517,
            StorageTag::DirectoryTraverseRequest => 0x518,
            StorageTag::DirectoryTraverseReply => 0x519,
        }
    }

    /// The word that carries this value on the wire.
    #[verifier::when_used_as_spec(spec_code)]
    pub fn code(self) -> (c: u32)
        ensures
            c == self.spec_code(),
    {
        match self {
            StorageTag::OpenRequest => 0x501,
            StorageTag::OpenReply => 0x502,
            StorageTag::ReadRequest => 0x503,
            StorageTag::ReadReply => 0x504,
            StorageTag::CloseRequest => 0x505,
            StorageTag::ListRequest => 0x506,
            StorageTag::ListReply => 0x507,
            StorageTag::DirectoryListRequest => 0x508,
            StorageTag::DirectoryListReply => 0x509,
            StorageTag::DirectoryOpenRequest => 0x50a,
            StorageTag::DirectoryOpenReply => 0x50b,
            StorageTag::DirectoryCreateRequest => 0x50c,
            StorageTag::DirectoryCreateReply => 0x50d,
            StorageTag::DirectoryRemoveRequest => 0x50e,
            StorageTag::DirectoryRemoveReply => 0x50f,
            StorageTag::DirectoryOpenFileRequest => 0x510,
            StorageTag::DirectoryOpenFileReply => 0x511,
            StorageTag::WriteRequest => 0x512,
            StorageTag::WriteReply => 0x513,
            StorageTag::DirectoryReadRequest => 0x514,
            StorageTag::DirectoryReadReply => 0x515,
            StorageTag::MountListRequest => 0x516,
            StorageTag::MountListReply => 0x517,
            StorageTag::DirectoryTraverseRequest => 0x518,
            StorageTag::DirectoryTraverseReply => 0x519,
        }
    }
}

/// Message tags of the Runtime protocol.
#[derive(Clone, Copy, Debug, PartialEq, Eq, Structural)]
pub enum RuntimeTag {
    EnvCreateRequest,
    EnvCreateReply,
    EnvDestroyRequest,
    EnvDestroyReply,
    EnvListRequest,
    EnvListReply,
    EnvStatusRequest,
    EnvStatusReply,
    EnvMountListRequest,
    EnvMountListReply,
    EnvVarListRequest,
    EnvVarListReply,
    RunLaunchRequest,
    RunLaunchReply,
    RunListRequest,
    RunListReply,
    RunStatusRequest,
    RunStatusReply,
    SessionInfoRequest,
    SessionInfoReply,
    SessionMountListRequest,
    SessionMountListReply,
    SessionVarListRequest,
    SessionVarListReply,
    SessionReadFileRequest,
    SessionReadFileReply,
    EnvDecisionRequest,
    EnvDecisionReply,
    AuditListRequest,
    AuditListReply,
}

impl RuntimeTag {
    /// The word that carries this value on the wire.
    pub open spec fn spec_code(self) -> u32 {
        match self {
            RuntimeTag::EnvCreateRequest => 0xd01,
            RuntimeTag::EnvCreateReply => 0xd02,
            RuntimeTag::EnvDestroyRequest => 0xd03,
            RuntimeTag::EnvDestroyReply => 0xd04,
            RuntimeTag::EnvListRequest => 0xd05,
            RuntimeTag::EnvListReply => 0xd06,
            RuntimeTag::EnvStatusRequest => 0xd07,
            RuntimeTag::EnvStatusReply => 0xd08,
            RuntimeTag::EnvMountListRequest => 0xd09,
            RuntimeTag::EnvMountListReply => 0xd0a,
            RuntimeTag::EnvVarListRequest => 0xd0b,
            RuntimeTag::EnvVarListReply => 0xd0c,
            RuntimeTag::RunLaunchRequest => 0xd0d,
            RuntimeTag::RunLaunchReply => 0xd0e,
            RuntimeTag::RunListRequest => 0xd0f,
            RuntimeTag::RunListReply => 0xd10,
            RuntimeTag::RunStatusRequest => 0xd11,
            RuntimeTag::RunStatusReply => 0xd12,
            RuntimeTag::SessionInfoRequest => 0xd13,
            RuntimeTag::SessionInfoReply => 0xd14,
            RuntimeTag::SessionMountListRequest => 0xd15,
            RuntimeTag::SessionMountListReply => 0xd16,
            RuntimeTag::SessionVarListRequest => 0xd17,
            RuntimeTag::SessionVarListReply => 0xd18,
            RuntimeTag::SessionReadFileRequest => 0xd19,
            RuntimeTag::SessionReadFileReply => 0xd1a,
            RuntimeTag::EnvDecisionRequest => 0xd1b,
            RuntimeTag::EnvDecisionReply => 0xd1c,
            RuntimeTag::AuditListRequest => 0xd1d,
            RuntimeTag::AuditListReply => 0xd1e,
        }
    }

    /// The word that carries this value on the wire.
    #[verifier::when_used_as_spec(spec_code)]
    pub fn code(self) -> (c: u32)
        ensures
            c == self.spec_code(),
    {
        match self {
            RuntimeTag::EnvCreateRequest => 0xd01,
            RuntimeTag::EnvCreateReply => 0xd02,
            RuntimeTag::EnvDestroyRequest => 0xd03,
            RuntimeTag::EnvDestroyReply => 0xd04,
            RuntimeTag::EnvListRequest => 0xd05,
            RuntimeTag::EnvListReply => 0xd06,
            RuntimeTag::EnvStatusRequest => 0xd07,
            RuntimeTag::EnvStatusReply => 0xd08,
            RuntimeTag::EnvMountListRequest => 0xd09,
            RuntimeTag::EnvMountListReply => 0xd0a,
            RuntimeTag::EnvVarListRequest => 0xd0b,
            RuntimeTag::EnvVarListReply => 0xd0c,
            RuntimeTag::RunLaunchRequest => 0xd0d,
            RuntimeTag::RunLaunchReply => 0xd0e,
            RuntimeTag::RunListRequest => 0xd0f,
            RuntimeTag::RunListReply => 0xd10,
            RuntimeTag::RunStatusRequest => 0xd11,
            RuntimeTag::RunStatusReply => 0xd12,
            RuntimeTag::SessionInfoRequest => 0xd13,
            RuntimeTag::SessionInfoReply => 0xd14,
            RuntimeTag::SessionMountListRequest => 0xd15,
            RuntimeTag::SessionMountListReply => 0xd16,
            RuntimeTag::SessionVarListRequest => 0xd17,
            RuntimeTag::SessionVarListReply => 0xd18,
            RuntimeTag::SessionReadFileRequest => 0xd19,
            RuntimeTag::SessionReadFileReply => 0xd1a,
            RuntimeTag::EnvDecisionRequest => 0xd1b,
            RuntimeTag::EnvDecisionReply => 0xd1c,
            RuntimeTag::AuditListRequest => 0xd1d,
            RuntimeTag::AuditListReply => 0xd1e,
        }
    }
}

/// Message tags of the Network protocol.
#[derive(Clone, Copy, Debug, PartialEq, Eq, Structural)]
pub enum NetworkTag {
    InterfaceListRequest,
    InterfaceListReply,
    InterfaceStatusRequest,
    InterfaceStatusReply,
    ResolveRequest,
    ResolveReply,
    PingRequest,
    PingReply,
    SocketOpenRequest,
    SocketOpenReply,
    SocketListRequest,
    SocketListReply,
    HostnameGetRequest,
    HostnameGetReply,
    HostnameSetRequest,
    HostnameSetReply,
    DiagPingStatsRequest,
    DiagPingStatsReply,
    NeighborDumpRequest,
    NeighborDumpReply,
    ListenPortsRequest,
    ListenPortsReply,
    DiscoveryPeersRequest,
    DiscoveryPeersReply,
    WifiScanRequest,
    WifiScanReply,
    WifiJoinRequest,
    WifiJoinReply,
    WifiLeaveRequest,
    WifiLeaveReply,
    WifiSavedListRequest,
    WifiSavedListReply,
    WifiSavedAddRequest,
    WifiSavedAddReply,
    WifiSavedRemoveRequest,
    WifiSavedRemoveReply,
    WifiStatusRequest,
    WifiStatusReply,
    FirewallRulesGetRequest,
    FirewallRulesSetRequest,
    FirewallRulesReply,
}

impl NetworkTag {
    /// The word that carries this value on the wire.
    pub open spec fn spec_code(self) -> u32 {
        match self {
            NetworkTag::InterfaceListRequest => 0x901,
            NetworkTag::InterfaceListReply => 0x902,
            NetworkTag::InterfaceStatusRequest => 0x903,
            NetworkTag::InterfaceStatusReply => 0x904,
            NetworkTag::ResolveRequest => 0x905,
            NetworkTag::ResolveReply => 0x906,
            NetworkTag::PingRequest => 0x907,
            NetworkTag::PingReply => 0x908,
            NetworkTag::SocketOpenRequest => 0x909,
            NetworkTag::SocketOpenReply => 0x90a,
            NetworkTag::SocketListRequest => 0x90b,
            NetworkTag::SocketListReply => 0x90c,
            NetworkTag::HostnameGetRequest => 0x90d,
            NetworkTag::HostnameGetReply => 0x90e,
            NetworkTag::HostnameSetRequest => 0x90f,
            NetworkTag::HostnameSetReply => 0x910,
            NetworkTag::DiagPingStatsRequest => 0x911,
            NetworkTag::DiagPingStatsReply => 0x912,
            NetworkTag::NeighborDumpRequest => 0x913,
            NetworkTag::NeighborDumpReply => 0x914,
            NetworkTag::ListenPortsRequest => 0x915,
            NetworkTag::ListenPortsReply => 0x916,
            NetworkTag::DiscoveryPeersRequest => 0x917,
            NetworkTag::DiscoveryPeersReply => 0x918,
            NetworkTag::WifiScanRequest => 0x919,
            NetworkTag::WifiScanReply => 0x91a,
            NetworkTag::WifiJoinRequest => 0x91b,
            NetworkTag::WifiJoinReply => 0x91c,
            NetworkTag::WifiLeaveRequest => 0x91d,
            NetworkTag::WifiLeaveReply => 0x91e,
            NetworkTag::WifiSavedListRequest => 0x91f,
            NetworkTag::WifiSavedListReply => 0x920,
            NetworkTag::WifiSavedAddRequest => 0x921,
            NetworkTag::WifiSavedAddReply => 0x922,
            NetworkTag::WifiSavedRemoveRequest => 0x923,
            NetworkTag::WifiSavedRemoveReply => 0x924,
            NetworkTag::WifiStatusRequest => 0x925,
            NetworkTag::WifiStatusReply => 0x926,
            NetworkTag::FirewallRulesGetRequest => 0x927,
            NetworkTag::FirewallRulesSetRequest => 0x928,
            NetworkTag::FirewallRulesReply => 0x929,
        }
    }

    /// The word that carries this value on the wire.
    #[verifier::when_used_as_spec(spec_code)]
    pub fn code(self) -> (c: u32)
        ensures
            c == self.spec_code(),
    {
        match self {
            NetworkTag::InterfaceListRequest => 0x901,
            NetworkTag::InterfaceListReply => 0x902,
            NetworkTag::InterfaceStatusRequest => 0x903,
            NetworkTag::InterfaceStatusReply => 0x904,
            NetworkTag::ResolveRequest => 0x905,
            NetworkTag::ResolveReply => 0x906,
            NetworkTag::PingRequest => 0x907,
            NetworkTag::PingReply => 0x908,
            NetworkTag::SocketOpenRequest => 0x909,
            NetworkTag::SocketOpenReply => 0x90a,
            NetworkTag::SocketListRequest => 0x90b,
            NetworkTag::SocketListReply => 0x90c,
            NetworkTag::HostnameGetRequest => 0x90d,
            NetworkTag::HostnameGetReply => 0x90e,
            NetworkTag::HostnameSetRequest => 0x90f,
            NetworkTag::HostnameSetReply => 0x910,
            NetworkTag::DiagPingStatsRequest => 0x911,
            NetworkTag::DiagPingStatsReply => 0x912,
            NetworkTag::NeighborDumpRequest => 0x913,
            NetworkTag::NeighborDumpReply => 0x914,
            NetworkTag::ListenPortsRequest => 0x915,
            NetworkTag::ListenPortsReply => 0x916,
            NetworkTag::DiscoveryPeersRequest => 0x917,
            NetworkTag::DiscoveryPeersReply => 0x918,
            NetworkTag::WifiScanRequest => 0x919,
            NetworkTag::WifiScanReply => 0x91a,
            NetworkTag::WifiJoinRequest => 0x91b,
            NetworkTag::WifiJoinReply => 0x91c,
            NetworkTag::WifiLeaveRequest => 0x91d,
            NetworkTag::WifiLeaveReply => 0x91e,
            NetworkTag::WifiSavedListRequest => 0x91f,
            NetworkTag::WifiSavedListReply => 0x920,
            NetworkTag::WifiSavedAddRequest => 0x921,
            NetworkTag::WifiSavedAddReply => 0x922,
            NetworkTag::WifiSavedRemoveRequest => 0x923,
            NetworkTag::WifiSavedRemoveReply => 0x924,
            NetworkTag::WifiStatusRequest => 0x925,
            NetworkTag::WifiStatusReply => 0x926,
            NetworkTag::FirewallRulesGetRequest => 0x927,
            NetworkTag::FirewallRulesSetRequest => 0x928,
            NetworkTag::FirewallRulesReply => 0x929,
        }
    }
}

/// Message tags of the NetworkSocket protocol.
#[derive(Clone, Copy, Debug, PartialEq, Eq, Structural)]
pub enum NetworkSocketTag {
    SendRequest,
    SendReply,
    ReceiveRequest,
    ReceiveReply,
    StatusRequest,
    StatusReply,
    CloseRequest,
    CloseReply,
}

impl NetworkSocketTag {
    /// The word that carries this value on the wire.
    pub open spec fn spec_code(self) -> u32 {
        match self {
            NetworkSocketTag::SendRequest => 0x981,
            NetworkSocketTag::SendReply => 0x982,
            NetworkSocketTag::ReceiveRequest => 0x983,
            NetworkSocketTag::ReceiveReply => 0x984,
            NetworkSocketTag::StatusRequest => 0x985,
            NetworkSocketTag::StatusReply => 0x986,
            NetworkSocketTag::CloseRequest => 0x987,
            NetworkSocketTag::CloseReply => 0x988,
        }
    }

    /// The word that carries this value on the wire.
    #[verifier::when_used_as_spec(spec_code)]
    pub fn code(self) -> (c: u32)
        ensures
            c == self.spec_code(),
    {
        match self {
            NetworkSocketTag::SendRequest => 0x981,
            NetworkSocketTag::SendReply => 0x982,
            NetworkSocketTag::ReceiveRequest => 0x983,
            NetworkSocketTag::ReceiveReply => 0x984,
            NetworkSocketTag::StatusRequest => 0x985,
            NetworkSocketTag::StatusReply => 0x986,
            NetworkSocketTag::CloseRequest => 0x987,
            NetworkSocketTag::CloseReply => 0x988,
        }
    }
}

/// Message tags of the Clipboard protocol.
#[derive(Clone, Copy, Debug, PartialEq, Eq, Structural)]
pub enum ClipboardTag {
    WriteRequest,
    WriteReply,
    ReadRequest,
    ReadReply,
    HistoryRequest,
    HistoryReply,
    ActivateRequest,
    ActivateReply,
}

impl ClipboardTag {
    /// The word that carries this value on the wire.
    pub open spec fn spec_code(self) -> u32 {
        match self {
            ClipboardTag::WriteRequest => 0x1001,
            ClipboardTag::WriteReply => 0x1002,
            ClipboardTag::ReadRequest => 0x1003,
            ClipboardTag::ReadReply => 0x1004,
            ClipboardTag::HistoryRequest => 0x1005,
            ClipboardTag::HistoryReply => 0x1006,
            ClipboardTag::ActivateRequest => 0x1007,
            ClipboardTag::ActivateReply => 0x1008,
        }
    }

    /// The word that carries this value on the wire.
    #[verifier::when_used_as_spec(spec_code)]
    pub fn code(self) -> (c: u32)
        ensures
            c == self.spec_code(),
    {
        match self {
            ClipboardTag::WriteRequest => 0x1001,
            ClipboardTag::WriteReply => 0x1002,
            ClipboardTag::ReadRequest => 0x1003,
            ClipboardTag::ReadReply => 0x1004,
            ClipboardTag::HistoryRequest => 0x1005,
            ClipboardTag::HistoryReply => 0x1006,
            ClipboardTag::ActivateRequest => 0x1007,
            ClipboardTag::ActivateReply => 0x1008,
        }
    }
}

/// Message tags of the Session protocol.
#[derive(Clone, Copy, Debug, PartialEq, Eq, Structural)]
pub enum SessionTag {
    ListRequest,
    ListReply,
    StatusRequest,
    StatusReply,
    FocusRequest,
    FocusReply,
}

impl SessionTag {
    /// The word that carries this value on the wire.
    pub open spec fn spec_code(self) -> u32 {
        match self {
            SessionTag::ListRequest => 0xb01,
            SessionTag::ListReply => 0xb02,
            SessionTag::StatusRequest => 0xb03,
            SessionTag::StatusReply => 0xb04,
            SessionTag::FocusRequest => 0xb05,
            SessionTag::FocusReply => 0xb06,
        }
    }

    /// The word that carries this value on the wire.
    #[verifier::when_used_as_spec(spec_code)]
    pub fn code(self) -> (c: u32)
        ensures
            c == self.spec_code(),
    {
        match self {
            SessionTag::ListRequest => 0xb01,
            SessionTag::ListReply => 0xb02,
            SessionTag::StatusRequest => 0xb03,
            SessionTag::StatusReply => 0xb04,
            SessionTag::FocusRequest => 0xb05,
            SessionTag::FocusReply => 0xb06,
        }
    }
}

/// Message tags of the Security protocol.
#[derive(Clone, Copy, Debug, PartialEq, Eq, Structural)]
pub enum SecurityTag {
    PolicyListRequest,
    PolicyListReply,
    PolicyInfoRequest,
    PolicyInfoReply,
    PolicySetRequest,
    PolicySetReply,
    AuditListRequest,
    AuditListReply,
}

impl SecurityTag {
    /// The word that carries this value on the wire.
    pub open spec fn spec_code(self) -> u32 {
        match self {
            SecurityTag::PolicyListRequest => 0x1101,
            SecurityTag::PolicyListReply => 0x1102,
            SecurityTag::PolicyInfoRequest => 0x1103,
            SecurityTag::PolicyInfoReply => 0x1104,
            SecurityTag::PolicySetRequest => 0x1105,
            SecurityTag::PolicySetReply => 0x1106,
            SecurityTag::AuditListRequest => 0x1107,
            SecurityTag::AuditListReply => 0x1108,
        }
    }

    /// The word that carries this value on the wire.
    #[verifier::when_used_as_spec(spec_code)]
    pub fn code(self) -> (c: u32)
        ensures
            c == self.spec_code(),
    {
        match self {
            SecurityTag::PolicyListRequest => 0x1101,
            SecurityTag::PolicyListReply => 0x1102,
            SecurityTag::PolicyInfoRequest => 0x1103,
            SecurityTag::PolicyInfoReply => 0x1104,
            SecurityTag::PolicySetRequest => 0x1105,
            SecurityTag::PolicySetReply => 0x1106,
            SecurityTag::AuditListRequest => 0x1107,
            SecurityTag::AuditListReply => 0x1108,
        }
    }
}

/// Message tags of the Terminal protocol.
#[derive(Clone, Copy, Debug, PartialEq, Eq, Structural)]
pub enum TerminalTag {
    SessionOpenRequest,
    SessionOpenReply,
    SessionListRequest,
    SessionListReply,
    SessionStatusRequest,
    SessionStatusReply,
    SessionInput,
    SessionResize,
    SessionClose,
    SessionOutput,
    SessionClosed,
}

impl TerminalTag {
    /// The word that carries this value on the wire.
    pub open spec fn spec_code(self) -> u32 {
        match self {
            TerminalTag::SessionOpenRequest => 0xc01,
            TerminalTag::SessionOpenReply => 0xc02,
            TerminalTag::SessionListRequest => 0xc03,
            TerminalTag::SessionListReply => 0xc04,
            TerminalTag::SessionStatusRequest => 0xc05,
            TerminalTag::SessionStatusReply => 0xc06,
            TerminalTag::SessionInput => 0xc07,
            TerminalTag::SessionResize => 0xc08,
            TerminalTag::SessionClose => 0xc09,
            TerminalTag::SessionOutput => 0xc0a,
            TerminalTag::SessionClosed => 0xc0b,
        }
    }

    /// The word that carries this value on the wire.
    #[verifier::when_used_as_spec(spec_code)]
    pub fn code(self) -> (c: u32)
        ensures
            c == self.spec_code(),
    {
        match self {
            TerminalTag::SessionOpenRequest => 0xc01,
            TerminalTag::SessionOpenReply => 0xc02,
            TerminalTag::SessionListRequest => 0xc03,
            TerminalTag::SessionListReply => 0xc04,
            TerminalTag::SessionStatusRequest => 0xc05,
            TerminalTag::SessionStatusReply => 0xc06,
            TerminalTag::SessionInput => 0xc07,
            TerminalTag::SessionResize => 0xc08,
            TerminalTag::SessionClose => 0xc09,
            TerminalTag::SessionOutput => 0xc0a,
            TerminalTag::SessionClosed => 0xc0b,
        }
    }
}

/// Message tags of the AppControl protocol.
#[derive(Clone, Copy, Debug, PartialEq, Eq, Structural)]
pub enum AppControlTag {
    FocusChanged,
    Resize,
    Close,
    Pointer,
    Key,
    Text,
    OpenPath,
}

impl AppControlTag {
    /// The word that carries this value on the wire.
    pub open spec fn spec_code(self) -> u32 {
        match self {
            AppControlTag::FocusChanged => 0x1201,
            AppControlTag::Resize => 0x1202,
            AppControlTag::Close => 0x1203,
            AppControlTag::Pointer => 0x1204,
            AppControlTag::Key => 0x1205,
            AppControlTag::Text => 0x1206,
            AppControlTag::OpenPath => 0x1207,
        }
    }

    /// The word that carries this value on the wire.
    #[verifier::when_used_as_spec(spec_code)]
    pub fn code(self) -> (c: u32)
        ensures
            c == self.spec_code(),
    {
        match self {
            AppControlTag::FocusChanged => 0x1201,
            AppControlTag::Resize => 0x1202,
            AppControlTag::Close => 0x1203,
            AppControlTag::Pointer => 0x1204,
            AppControlTag::Key => 0x1205,
            AppControlTag::Text => 0x1206,
            AppControlTag::OpenPath => 0x1207,
        }
    }
}

/// Message tags of the Status protocol.
#[derive(Clone, Copy, Debug, PartialEq, Eq, Structural)]
pub enum StatusTag {
    SnapshotRequest,
    SnapshotReply,
    ServiceReport,
    ServiceQueryRequest,
    ServiceQueryReply,
    ServiceListRequest,
    ServiceListReply,
    SubscribeRequest,
    SubscribeReply,
    StreamEvent,
}

impl StatusTag {
    /// The word that carries this value on the wire.
    pub open spec fn spec_code(self) -> u32 {
        match self {
            StatusTag::SnapshotRequest => 0x601,
            StatusTag::SnapshotReply => 0x602,
            StatusTag::ServiceReport => 0x603,
            StatusTag::ServiceQueryRequest => 0x604,
            StatusTag::ServiceQueryReply => 0x605,
            StatusTag::ServiceListRequest => 0x606,
            StatusTag::ServiceListReply => 0x607,
            StatusTag::SubscribeRequest => 0x608,
            StatusTag::SubscribeReply => 0x609,
            StatusTag::StreamEvent => 0x60a,
        }
    }

    /// The word that carries this value on the wire.
    #[verifier::when_used_as_spec(spec_code)]
    pub fn code(self) -> (c: u32)
        ensures
            c == self.spec_code(),
    {
        match self {
            StatusTag::SnapshotRequest => 0x601,
            StatusTag::SnapshotReply => 0x602,
            StatusTag::ServiceReport => 0x603,
            StatusTag::ServiceQueryRequest => 0x604,
            StatusTag::ServiceQueryReply => 0x605,
            StatusTag::ServiceListRequest => 0x606,
            StatusTag::ServiceListReply => 0x607,
            StatusTag::SubscribeRequest => 0x608,
            StatusTag::SubscribeReply => 0x609,
            StatusTag::StreamEvent => 0x60a,
        }
    }
}

/// Message tags of the Audio protocol.
#[derive(Clone, Copy, Debug, PartialEq, Eq, Structural)]
pub enum AudioTag {
    EndpointListRequest,
    EndpointListReply,
    EndpointStatusRequest,
    EndpointStatusReply,
    StreamOpenRequest,
    StreamOpenReply,
    StreamListRequest,
    StreamListReply,
    StreamStatusRequest,
    StreamStatusReply,
    StreamPlayToneRequest,
    StreamPlayToneReply,
    StreamCloseRequest,
    StreamCloseReply,
}

impl AudioTag {
    /// The word that carries this value on the wire.
    pub open spec fn spec_code(self) -> u32 {
        match self {
            AudioTag::EndpointListRequest => 0xe01,
            AudioTag::EndpointListReply => 0xe02,
            AudioTag::EndpointStatusRequest => 0xe03,
            AudioTag::EndpointStatusReply => 0xe04,
            AudioTag::StreamOpenRequest => 0xe05,
            AudioTag::StreamOpenReply => 0xe06,
            AudioTag::StreamListRequest => 0xe07,
            AudioTag::StreamListReply => 0xe08,
            AudioTag::StreamStatusRequest => 0xe09,
            AudioTag::StreamStatusReply => 0xe0a,
            AudioTag::StreamPlayToneRequest => 0xe0b,
            AudioTag::StreamPlayToneReply => 0xe0c,
            AudioTag::StreamCloseRequest => 0xe0d,
            AudioTag::StreamCloseReply => 0xe0e,
        }
    }

    /// The word that carries this value on the wire.
    #[verifier::when_used_as_spec(spec_code)]
    pub fn code(self) -> (c: u32)
        ensures
            c == self.spec_code(),
    {
        match self {
            AudioTag::EndpointListRequest => 0xe01,
            AudioTag::EndpointListReply => 0xe02,
            AudioTag::EndpointStatusRequest => 0xe03,
            AudioTag::EndpointStatusReply => 0xe04,
            AudioTag::StreamOpenRequest => 0xe05,
            AudioTag::StreamOpenReply => 0xe06,
            AudioTag::StreamListRequest => 0xe07,
            AudioTag::StreamListReply => 0xe08,
            AudioTag::StreamStatusRequest => 0xe09,
            AudioTag::StreamStatusReply => 0xe0a,
            AudioTag::StreamPlayToneRequest => 0xe0b,
            AudioTag::StreamPlayToneReply => 0xe0c,
            AudioTag::StreamCloseRequest => 0xe0d,
            AudioTag::StreamCloseReply => 0xe0e,
        }
    }
}

/// Message tags of the Manager protocol.
#[derive(Clone, Copy, Debug, PartialEq, Eq, Structural)]
pub enum ManagerTag {
    ListServicesRequest,
    ListServicesReply,
    ServiceStatusRequest,
    ServiceStatusReply,
    ServiceActionRequest,
    ServiceActionReply,
    LaunchRequest,
    LaunchReply,
    ActivateRequest,
    ActivateReply,
    DeactivateRequest,
    DeactivateReply,
}

impl ManagerTag {
    /// The word that carries this value on the wire.
    pub open spec fn spec_code(self) -> u32 {
        match self {
            ManagerTag::ListServicesRequest => 0x701,
            ManagerTag::ListServicesReply => 0x702,
            ManagerTag::ServiceStatusRequest => 0x703,
            ManagerTag::ServiceStatusReply => 0x704,
            ManagerTag::ServiceActionRequest => 0x705,
            ManagerTag::ServiceActionReply => 0x706,
            ManagerTag::LaunchRequest => 0x707,
            ManagerTag::LaunchReply => 0x708,
            ManagerTag::ActivateRequest => 0x709,
            ManagerTag::ActivateReply => 0x70a,
            ManagerTag::DeactivateRequest => 0x70b,
            ManagerTag::DeactivateReply => 0x70c,
        }
    }

    /// The word that carries this value on the wire.
    #[verifier::when_used_as_spec(spec_code)]
    pub fn code(self) -> (c: u32)
        ensures
            c == self.spec_code(),
    {
        match self {
            ManagerTag::ListServicesRequest => 0x701,
            ManagerTag::ListServicesReply => 0x702,
            ManagerTag::ServiceStatusRequest => 0x703,
            ManagerTag::ServiceStatusReply => 0x704,
            ManagerTag::ServiceActionRequest => 0x705,
            ManagerTag::ServiceActionReply => 0x706,
            ManagerTag::LaunchRequest => 0x707,
            ManagerTag::LaunchReply => 0x708,
            ManagerTag::ActivateRequest => 0x709,
            ManagerTag::ActivateReply => 0x70a,
            ManagerTag::DeactivateRequest => 0x70b,
            ManagerTag::DeactivateReply => 0x70c,
        }
    }
}

/// Message tags of the Package protocol.
#[derive(Clone, Copy, Debug, PartialEq, Eq, Structural)]
pub enum PackageTag {
    ListRequest,
    ListReply,
    InfoRequest,
    InfoReply,
    InstallRequest,
    InstallReply,
    UpdateRequest,
    UpdateReply,
    RemoveRequest,
    RemoveReply,
    RollbackRequest,
    RollbackReply,
    HistoryRequest,
    HistoryReply,
    CatalogRequest,
    CatalogReply,
    ProvenanceRequest,
    ProvenanceReply,
    PolicyRequest,
    PolicyReply,
    PolicySetRequest,
    PolicySetReply,
    MaintenanceRequest,
    MaintenanceReply,
    RepositoryListRequest,
    RepositoryListReply,
    RepositoryAddRequest,
    RepositoryAddReply,
    RepositorySyncRequest,
    RepositorySyncReply,
}

impl PackageTag {
    /// The word that carries this value on the wire.
    pub open spec fn spec_code(self) -> u32 {
        match self {
            PackageTag::ListRequest => 0x801,
            PackageTag::ListReply => 0x802,
            PackageTag::InfoRequest => 0x803,
            PackageTag::InfoReply => 0x804,
            PackageTag::InstallRequest => 0x805,
            PackageTag::InstallReply => 0x806,
            PackageTag::UpdateRequest => 0x807,
            PackageTag::UpdateReply => 0x808,
            PackageTag::RemoveRequest => 0x809,
            PackageTag::RemoveReply => 0x80a,
            PackageTag::RollbackRequest => 0x80b,
            PackageTag::RollbackReply => 0x80c,
            PackageTag::HistoryRequest => 0x80d,
            PackageTag::HistoryReply => 0x80e,
            PackageTag::CatalogRequest => 0x80f,
            PackageTag::CatalogReply => 0x810,
            PackageTag::ProvenanceRequest => 0x811,
            PackageTag::ProvenanceReply => 0x812,
            PackageTag::PolicyRequest => 0x813,
            PackageTag::PolicyReply => 0x814,
            PackageTag::PolicySetRequest => 0x815,
            PackageTag::PolicySetReply => 0x816,
            PackageTag::MaintenanceRequest => 0x817,
            PackageTag::MaintenanceReply => 0x818,
            PackageTag::RepositoryListRequest => 0x819,
            PackageTag::RepositoryListReply => 0x81a,
            PackageTag::RepositoryAddRequest => 0x81b,
            PackageTag::RepositoryAddReply => 0x81c,
            PackageTag::RepositorySyncRequest => 0x81d,
            PackageTag::RepositorySyncReply => 0x81e,
        }
    }

    /// The word that carries this value on the wire.
    #[verifier::when_used_as_spec(spec_code)]
    pub fn code(self) -> (c: u32)
        ensures
            c == self.spec_code(),
    {
        match self {
            PackageTag::ListRequest => 0x801,
            PackageTag::ListReply => 0x802,
            PackageTag::InfoRequest => 0x803,
            PackageTag::InfoReply => 0x804,
            PackageTag::InstallRequest => 0x805,
            PackageTag::InstallReply => 0x806,
            PackageTag::UpdateRequest => 0x807,
            PackageTag::UpdateReply => 0x808,
            PackageTag::RemoveRequest => 0x809,
            PackageTag::RemoveReply => 0x80a,
            PackageTag::RollbackRequest => 0x80b,
            PackageTag::RollbackReply => 0x80c,
            PackageTag::HistoryRequest => 0x80d,
            PackageTag::HistoryReply => 0x80e,
            PackageTag::CatalogRequest => 0x80f,
            PackageTag::CatalogReply => 0x810,
            PackageTag::ProvenanceRequest => 0x811,
            PackageTag::ProvenanceReply => 0x812,
            PackageTag::PolicyRequest => 0x813,
            PackageTag::PolicyReply => 0x814,
            PackageTag::PolicySetRequest => 0x815,
            PackageTag::PolicySetReply => 0x816,
            PackageTag::MaintenanceRequest => 0x817,
            PackageTag::MaintenanceReply => 0x818,
            PackageTag::RepositoryListRequest => 0x819,
            PackageTag::RepositoryListReply => 0x81a,
            PackageTag::RepositoryAddRequest => 0x81b,
            PackageTag::RepositoryAddReply => 0x81c,
            PackageTag::RepositorySyncRequest => 0x81d,
            PackageTag::RepositorySyncReply => 0x81e,
        }
    }
}

/// Message tags of the Developer protocol.
#[derive(Clone, Copy, Debug, PartialEq, Eq, Structural)]
pub enum DeveloperTag {
    ToolchainListRequest,
    ToolchainListReply,
    ToolchainInfoRequest,
    ToolchainInfoReply,
    WorkspaceListRequest,
    WorkspaceListReply,
    WorkspaceInfoRequest,
    WorkspaceInfoReply,
    BuildRequest,
    BuildReply,
    JobListRequest,
    JobListReply,
    JobInfoRequest,
    JobInfoReply,
    ArtifactOpenRequest,
    ArtifactOpenReply,
}

impl DeveloperTag {
    /// The word that carries this value on the wire.
    pub open spec fn spec_code(self) -> u32 {
        match self {
            DeveloperTag::ToolchainListRequest => 0xf01,
            DeveloperTag::ToolchainListReply => 0xf02,
            DeveloperTag::ToolchainInfoRequest => 0xf03,
            DeveloperTag::ToolchainInfoReply => 0xf04,
            DeveloperTag::WorkspaceListRequest => 0xf05,
            DeveloperTag::WorkspaceListReply => 0xf06,
            DeveloperTag::WorkspaceInfoRequest => 0xf07,
            DeveloperTag::WorkspaceInfoReply => 0xf08,
            DeveloperTag::BuildRequest => 0xf09,
            DeveloperTag::BuildReply => 0xf0a,
            DeveloperTag::JobListRequest => 0xf0b,
            DeveloperTag::JobListReply => 0xf0c,
            DeveloperTag::JobInfoRequest => 0xf0d,
            DeveloperTag::JobInfoReply => 0xf0e,
            DeveloperTag::ArtifactOpenRequest => 0xf0f,
            DeveloperTag::ArtifactOpenReply => 0xf10,
        }
    }

    /// The word that carries this value on the wire.
    #[verifier::when_used_as_spec(spec_code)]
    pub fn code(self) -> (c: u32)
        ensures
            c == self.spec_code(),
    {
        match self {
            DeveloperTag::ToolchainListRequest => 0xf01,
            DeveloperTag::ToolchainListReply => 0xf02,
            DeveloperTag::ToolchainInfoRequest => 0xf03,
            DeveloperTag::ToolchainInfoReply => 0xf04,
            DeveloperTag::WorkspaceListRequest => 0xf05,
            DeveloperTag::WorkspaceListReply => 0xf06,
            DeveloperTag::WorkspaceInfoRequest => 0xf07,
            DeveloperTag::WorkspaceInfoReply => 0xf08,
            DeveloperTag::BuildRequest => 0xf09,
            DeveloperTag::BuildReply => 0xf0a,
            DeveloperTag::JobListRequest => 0xf0b,
            DeveloperTag::JobListReply => 0xf0c,
            DeveloperTag::JobInfoRequest => 0xf0d,
            DeveloperTag::JobInfoReply => 0xf0e,
            DeveloperTag::ArtifactOpenRequest => 0xf0f,
            DeveloperTag::ArtifactOpenReply => 0xf10,
        }
    }
}

/// Message tags of the Graphics protocol.
#[derive(Clone, Copy, Debug, PartialEq, Eq, Structural)]
pub enum GraphicsTag {
    OutputListRequest,
    OutputListReply,
    OutputStatusRequest,
    OutputStatusReply,
    SurfaceCreateRequest,
    SurfaceCreateReply,
    SurfaceListRequest,
    SurfaceListReply,
    SurfaceStatusRequest,
    SurfaceStatusReply,
}

impl GraphicsTag {
    /// The word that carries this value on the wire.
    pub open spec fn spec_code(self) -> u32 {
        match self {
            GraphicsTag::OutputListRequest => 0xa01,
            GraphicsTag::OutputListReply => 0xa02,
            GraphicsTag::OutputStatusRequest => 0xa03,
            GraphicsTag::OutputStatusReply => 0xa04,
            GraphicsTag::SurfaceCreateRequest => 0xa05,
            GraphicsTag::SurfaceCreateReply => 0xa06,
            GraphicsTag::SurfaceListRequest => 0xa07,
            GraphicsTag::SurfaceListReply => 0xa08,
            GraphicsTag::SurfaceStatusRequest => 0xa09,
            GraphicsTag::SurfaceStatusReply => 0xa0a,
        }
    }

    /// The word that carries this value on the wire.
    #[verifier::when_used_as_spec(spec_code)]
    pub fn code(self) -> (c: u32)
        ensures
            c == self.spec_code(),
    {
        match self {
            GraphicsTag::OutputListRequest => 0xa01,
            GraphicsTag::OutputListReply => 0xa02,
            GraphicsTag::OutputStatusRequest => 0xa03,
            GraphicsTag::OutputStatusReply => 0xa04,
            GraphicsTag::SurfaceCreateRequest => 0xa05,
            GraphicsTag::SurfaceCreateReply => 0xa06,
            GraphicsTag::SurfaceListRequest => 0xa07,
            GraphicsTag::SurfaceListReply => 0xa08,
            GraphicsTag::SurfaceStatusRequest => 0xa09,
            GraphicsTag::SurfaceStatusReply => 0xa0a,
        }
    }
}

/// Message tags of the Surface protocol.
#[derive(Clone, Copy, Debug, PartialEq, Eq, Structural)]
pub enum SurfaceTag {
    SetGeometryRequest,
    SetGeometryReply,
    SetFillRequest,
    SetFillReply,
    SetVisibilityRequest,
    SetVisibilityReply,
    ClearSceneRequest,
    ClearSceneReply,
    SetRectRequest,
    SetRectReply,
    SetLabelRequest,
    SetLabelReply,
    CloseRequest,
    AttachBufferRequest,
    AttachBufferReply,
}

impl SurfaceTag {
    /// The word that carries this value on the wire.
    pub open spec fn spec_code(self) -> u32 {
        match self {
            SurfaceTag::SetGeometryRequest => 0xa81,
            SurfaceTag::SetGeometryReply => 0xa82,
            SurfaceTag::SetFillRequest => 0xa83,
            SurfaceTag::SetFillReply => 0xa84,
            SurfaceTag::SetVisibilityRequest => 0xa85,
            SurfaceTag::SetVisibilityReply => 0xa86,
            SurfaceTag::ClearSceneRequest => 0xa87,
            SurfaceTag::ClearSceneReply => 0xa88,
            SurfaceTag::SetRectRequest => 0xa89,
            SurfaceTag::SetRectReply => 0xa8a,
            SurfaceTag::SetLabelRequest => 0xa8b,
            SurfaceTag::SetLabelReply => 0xa8c,
            SurfaceTag::CloseRequest => 0xa8d,
            SurfaceTag::AttachBufferRequest => 0xa8e,
            SurfaceTag::AttachBufferReply => 0xa8f,
        }
    }

    /// The word that carries this value on the wire.
    #[verifier::when_used_as_spec(spec_code)]
    pub fn code(self) -> (c: u32)
        ensures
            c == self.spec_code(),
    {
        match self {
            SurfaceTag::SetGeometryRequest => 0xa81,
            SurfaceTag::SetGeometryReply => 0xa82,
            SurfaceTag::SetFillRequest => 0xa83,
            SurfaceTag::SetFillReply => 0xa84,
            SurfaceTag::SetVisibilityRequest => 0xa85,
            SurfaceTag::SetVisibilityReply => 0xa86,
            SurfaceTag::ClearSceneRequest => 0xa87,
            SurfaceTag::ClearSceneReply => 0xa88,
            SurfaceTag::SetRectRequest => 0xa89,
            SurfaceTag::SetRectReply => 0xa8a,
            SurfaceTag::SetLabelRequest => 0xa8b,
            SurfaceTag::SetLabelReply => 0xa8c,
            SurfaceTag::CloseRequest => 0xa8d,
            SurfaceTag::AttachBufferRequest => 0xa8e,
            SurfaceTag::AttachBufferReply => 0xa8f,
        }
    }
}

/// Message tags of the Desktop protocol.
#[derive(Clone, Copy, Debug, PartialEq, Eq, Structural)]
pub enum DesktopTag {
    StatusRequest,
    StatusReply,
    ListAppsRequest,
    ListAppsReply,
    LaunchAppRequest,
    LaunchAppReply,
    FocusAppRequest,
    FocusAppReply,
    ListWindowsRequest,
    ListWindowsReply,
    WindowActionRequest,
    WindowActionReply,
    NotifyRequest,
    NotifyReply,
    NotificationHistoryRequest,
    NotificationHistoryReply,
    WorkspaceRequest,
    WorkspaceReply,
    OpenPathRequest,
    OpenPathReply,
    InputRequest,
    InputReply,
}

impl DesktopTag {
    /// The word that carries this value on the wire.
    pub open spec fn spec_code(self) -> u32 {
        match self {
            DesktopTag::StatusRequest => 0x1301,
            DesktopTag::StatusReply => 0x1302,
            DesktopTag::ListAppsRequest => 0x1303,
            DesktopTag::ListAppsReply => 0x1304,
            DesktopTag::LaunchAppRequest => 0x1305,
            DesktopTag::LaunchAppReply => 0x1306,
            DesktopTag::FocusAppRequest => 0x1307,
            DesktopTag::FocusAppReply => 0x1308,
            DesktopTag::ListWindowsRequest => 0x1309,
            DesktopTag::ListWindowsReply => 0x130a,
            DesktopTag::WindowActionRequest => 0x130b,
            DesktopTag::WindowActionReply => 0x130c,
            DesktopTag::NotifyRequest => 0x130d,
            DesktopTag::NotifyReply => 0x130e,
            DesktopTag::NotificationHistoryRequest => 0x130f,
            DesktopTag::NotificationHistoryReply => 0x1310,
            DesktopTag::WorkspaceRequest => 0x1311,
            DesktopTag::WorkspaceReply => 0x1312,
            DesktopTag::OpenPathRequest => 0x1313,
            DesktopTag::OpenPathReply => 0x1314,
            DesktopTag::InputRequest => 0x1315,
            DesktopTag::InputReply => 0x1316,
        }
    }

    /// The word that carries this value on the wire.
    #[verifier::when_used_as_spec(spec_code)]
    pub fn code(self) -> (c: u32)
        ensures
            c == self.spec_code(),
    {
        match self {
            DesktopTag::StatusRequest => 0x1301,
            DesktopTag::StatusReply => 0x1302,
            DesktopTag::ListAppsRequest => 0x1303,
            DesktopTag::ListAppsReply => 0x1304,
            DesktopTag::LaunchAppRequest => 0x1305,
            DesktopTag::LaunchAppReply => 0x1306,
            DesktopTag::FocusAppRequest => 0x1307,
            DesktopTag::FocusAppReply => 0x1308,
            DesktopTag::ListWindowsRequest => 0x1309,
            DesktopTag::ListWindowsReply => 0x130a,
            DesktopTag::WindowActionRequest => 0x130b,
            DesktopTag::WindowActionReply => 0x130c,
            DesktopTag::NotifyRequest => 0x130d,
            DesktopTag::NotifyReply => 0x130e,
            DesktopTag::NotificationHistoryRequest => 0x130f,
            DesktopTag::NotificationHistoryReply => 0x1310,
            DesktopTag::WorkspaceRequest => 0x1311,
            DesktopTag::WorkspaceReply => 0x1312,
            DesktopTag::OpenPathRequest => 0x1313,
            DesktopTag::OpenPathReply => 0x1314,
            DesktopTag::InputRequest => 0x1315,
            DesktopTag::InputReply => 0x1316,
        }
    }
}

} // verus!
