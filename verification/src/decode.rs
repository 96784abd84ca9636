//! Decoding of ABI values from IPC words, and the errors that service
//! statuses stand for.
use vstd::prelude::*;

use crate::abi::{AudioEndpointBackend, AudioEndpointDirection, AudioEndpointState, AudioStatus, AudioStreamDirection, AudioStreamState, ClipboardStatus, DesktopAppId, DesktopDragMode, DesktopStatus, DeveloperArtifactFormat, DeveloperJobState, DeveloperStatus, DeveloperTarget, DeveloperToolchainState, DisplayOutputBackend, DisplayOutputState, DisplayPixelFormat, GraphicsStatus, LogDomain, LogEvent, LogSeverity, ManagerAvailability, ManagerLookupPolicy, ManagerServicePhase, ManagerStartupMode, ManagerStatus, NetworkConfigMode, NetworkConfigState, NetworkListenPortKind, NetworkSocketKind, NetworkSocketState, NetworkStatus, PackageChannel, PackageRepositorySyncState, PackageRepositoryTrustMode, PackageRing, PackageStatus, PackageTrustState, PacketInterfaceBackend, PacketInterfaceLinkState, PermissionPolicyState, RuntimeEnvState, RuntimeKind, RuntimeRunState, RuntimeStatus, RuntimeWorkloadKind, SecurityAuditKind, SecurityStatus, ServiceId, ServiceImageId, SessionInputSource, SessionStatus, StatusHealth, TerminalStatus};
use crate::error::Error;

verus! {

/// Distinct `AudioEndpointBackend` values are carried by distinct words.
pub proof fn lemma_audio_endpoint_backend_code_injective(v: AudioEndpointBackend)
    ensures
        forall|w: AudioEndpointBackend| #[trigger] w.spec_code() == v.spec_code() ==> w == v,
{
}

/// Distinct `AudioEndpointDirection` values are carried by distinct words.
pub proof fn lemma_audio_endpoint_direction_code_injective(v: AudioEndpointDirection)
    ensures
        forall|w: AudioEndpointDirection| #[trigger] w.spec_code() == v.spec_code() ==> w == v,
{
}

/// Distinct `AudioEndpointState` values are carried by distinct words.
pub proof fn lemma_audio_endpoint_state_code_injective(v: AudioEndpointState)
    ensures
        forall|w: AudioEndpointState| #[trigger] w.spec_code() == v.spec_code() ==> w == v,
{
}

/// Distinct `AudioStatus` values are carried by distinct words.
pub proof fn lemma_audio_status_code_injective(v: AudioStatus)
    ensures
        forall|w: AudioStatus| #[trigger] w.spec_code() == v.spec_code() ==> w == v,
{
}

/// Distinct `AudioStreamDirection` values are carried by distinct words.
pub proof fn lemma_audio_stream_direction_code_injective(v: AudioStreamDirection)
    ensures
        forall|w: AudioStreamDirection| #[trigger] w.spec_code() == v.spec_code() ==> w == v,
{
}

/// Distinct `AudioStreamState` values are carried by distinct words.
pub proof fn lemma_audio_stream_state_code_injective(v: AudioStreamState)
    ensures
        forall|w: AudioStreamState| #[trigger] w.spec_code() == v.spec_code() ==> w == v,
{
}

/// Distinct `ClipboardStatus` values are carried by distinct words.
pub proof fn lemma_clipboard_status_code_injective(v: ClipboardStatus)
    ensures
        forall|w: ClipboardStatus| #[trigger] w.spec_code() == v.spec_code() ==> w == v,
{
}

/// Distinct `DesktopAppId` values are carried by distinct words.
pub proof fn lemma_desktop_app_id_code_injective(v: DesktopAppId)
    ensures
        forall|w: DesktopAppId| #[trigger] w.spec_code() == v.spec_code() ==> w == v,
{
}

/// Distinct `DesktopDragMode` values are carried by distinct words.
pub proof fn lemma_desktop_drag_mode_code_injective(v: DesktopDragMode)
    ensures
        forall|w: DesktopDragMode| #[trigger] w.spec_code() == v.spec_code() ==> w == v,
{
}

/// Distinct `DesktopStatus` values are carried by distinct words.
pub proof fn lemma_desktop_status_code_injective(v: DesktopStatus)
    ensures
        forall|w: DesktopStatus| #[trigger] w.spec_code() == v.spec_code() ==> w == v,
{
}

/// Distinct `DeveloperArtifactFormat` values are carried by distinct words.
pub proof fn lemma_developer_artifact_format_code_injective(v: DeveloperArtifactFormat)
    ensures
        forall|w: DeveloperArtifactFormat| #[trigger] w.spec_code() == v.spec_code() ==> w == v,
{
}

/// Distinct `DeveloperJobState` values are carried by distinct words.
pub proof fn lemma_developer_job_state_code_injective(v: DeveloperJobState)
    ensures
        forall|w: DeveloperJobState| #[trigger] w.spec_code() == v.spec_code() ==> w == v,
{
}

/// Distinct `DeveloperStatus` values are carried by distinct words.
pub proof fn lemma_developer_status_code_injective(v: DeveloperStatus)
    ensures
        forall|w: DeveloperStatus| #[trigger] w.spec_code() == v.spec_code() ==> w == v,
{
}

/// Distinct `DeveloperTarget` values are carried by distinct words.
pub proof fn lemma_developer_target_code_injective(v: DeveloperTarget)
    ensures
        forall|w: DeveloperTarget| #[trigger] w.spec_code() == v.spec_code() ==> w == v,
{
}

/// Distinct `DeveloperToolchainState` values are carried by distinct words.
pub proof fn lemma_developer_toolchain_state_code_injective(v: DeveloperToolchainState)
    ensures
        forall|w: DeveloperToolchainState| #[trigger] w.spec_code() == v.spec_code() ==> w == v,
{
}

/// Distinct `DisplayOutputBackend` values are carried by distinct words.
pub proof fn lemma_display_output_backend_code_injective(v: DisplayOutputBackend)
    ensures
        forall|w: DisplayOutputBackend| #[trigger] w.spec_code() == v.spec_code() ==> w == v,
{
}

/// Distinct `DisplayOutputState` values are carried by distinct words.
pub proof fn lemma_display_output_state_code_injective(v: DisplayOutputState)
    ensures
        forall|w: DisplayOutputState| #[trigger] w.spec_code() == v.spec_code() ==> w == v,
{
}

/// Distinct `DisplayPixelFormat` values are carried by distinct words.
pub proof fn lemma_display_pixel_format_code_injective(v: DisplayPixelFormat)
    ensures
        forall|w: DisplayPixelFormat| #[trigger] w.spec_code() == v.spec_code() ==> w == v,
{
}

/// Distinct `GraphicsStatus` values are carried by distinct words.
pub proof fn lemma_graphics_status_code_injective(v: GraphicsStatus)
    ensures
        forall|w: GraphicsStatus| #[trigger] w.spec_code() == v.spec_code() ==> w == v,
{
}

/// Distinct `LogDomain` values are carried by distinct words.
pub proof fn lemma_log_domain_code_injective(v: LogDomain)
    ensures
        forall|w: LogDomain| #[trigger] w.spec_code() == v.spec_code() ==> w == v,
{
}

/// Distinct `LogEvent` values are carried by distinct words.
pub proof fn lemma_log_event_code_injective(v: LogEvent)
    ensures
        forall|w: LogEvent| #[trigger] w.spec_code() == v.spec_code() ==> w == v,
{
}

/// Distinct `LogSeverity` values are carried by distinct words.
pub proof fn lemma_log_severity_code_injective(v: LogSeverity)
    ensures
        forall|w: LogSeverity| #[trigger] w.spec_code() == v.spec_code() ==> w == v,
{
}

/// Distinct `ManagerAvailability` values are carried by distinct words.
pub proof fn lemma_manager_availability_code_injective(v: ManagerAvailability)
    ensures
        forall|w: ManagerAvailability| #[trigger] w.spec_code() == v.spec_code() ==> w == v,
{
}

/// Distinct `ManagerLookupPolicy` values are carried by distinct words.
pub proof fn lemma_manager_lookup_policy_code_injective(v: ManagerLookupPolicy)
    ensures
        forall|w: ManagerLookupPolicy| #[trigger] w.spec_code() == v.spec_code() ==> w == v,
{
}

/// Distinct `ManagerServicePhase` values are carried by distinct words.
pub proof fn lemma_manager_service_phase_code_injective(v: ManagerServicePhase)
    ensures
        forall|w: ManagerServicePhase| #[trigger] w.spec_code() == v.spec_code() ==> w == v,
{
}

/// Distinct `ManagerStartupMode` values are carried by distinct words.
pub proof fn lemma_manager_startup_mode_code_injective(v: ManagerStartupMode)
    ensures
        forall|w: ManagerStartupMode| #[trigger] w.spec_code() == v.spec_code() ==> w == v,
{
}

/// Distinct `ManagerStatus` values are carried by distinct words.
pub proof fn lemma_manager_status_code_injective(v: ManagerStatus)
    ensures
        forall|w: ManagerStatus| #[trigger] w.spec_code() == v.spec_code() ==> w == v,
{
}

/// Distinct `NetworkConfigMode` values are carried by distinct words.
pub proof fn lemma_network_config_mode_code_injective(v: NetworkConfigMode)
    ensures
        forall|w: NetworkConfigMode| #[trigger] w.spec_code() == v.spec_code() ==> w == v,
{
}

/// Distinct `NetworkConfigState` values are carried by distinct words.
pub proof fn lemma_network_config_state_code_injective(v: NetworkConfigState)
    ensures
        forall|w: NetworkConfigState| #[trigger] w.spec_code() == v.spec_code() ==> w == v,
{
}

/// Distinct `NetworkListenPortKind` values are carried by distinct words.
pub proof fn lemma_network_listen_port_kind_code_injective(v: NetworkListenPortKind)
    ensures
        forall|w: NetworkListenPortKind| #[trigger] w.spec_code() == v.spec_code() ==> w == v,
{
}

/// Distinct `NetworkSocketKind` values are carried by distinct words.
pub proof fn lemma_network_socket_kind_code_injective(v: NetworkSocketKind)
    ensures
        forall|w: NetworkSocketKind| #[trigger] w.spec_code() == v.spec_code() ==> w == v,
{
}

/// Distinct `NetworkSocketState` values are carried by distinct words.
pub proof fn lemma_network_socket_state_code_injective(v: NetworkSocketState)
    ensures
        forall|w: NetworkSocketState| #[trigger] w.spec_code() == v.spec_code() ==> w == v,
{
}

/// Distinct `NetworkStatus` values are carried by distinct words.
pub proof fn lemma_network_status_code_injective(v: NetworkStatus)
    ensures
        forall|w: NetworkStatus| #[trigger] w.spec_code() == v.spec_code() ==> w == v,
{
}

/// Distinct `PackageChannel` values are carried by distinct words.
pub proof fn lemma_package_channel_code_injective(v: PackageChannel)
    ensures
        forall|w: PackageChannel| #[trigger] w.spec_code() == v.spec_code() ==> w == v,
{
}

/// Distinct `PackageRepositorySyncState` values are carried by distinct words.
pub proof fn lemma_package_repository_sync_state_code_injective(v: PackageRepositorySyncState)
    ensures
        forall|w: PackageRepositorySyncState| #[trigger] w.spec_code() == v.spec_code() ==> w == v,
{
}

/// Distinct `PackageRepositoryTrustMode` values are carried by distinct words.
pub proof fn lemma_package_repository_trust_mode_code_injective(v: PackageRepositoryTrustMode)
    ensures
        forall|w: PackageRepositoryTrustMode| #[trigger] w.spec_code() == v.spec_code() ==> w == v,
{
}

/// Distinct `PackageRing` values are carried by distinct words.
pub proof fn lemma_package_ring_code_injective(v: PackageRing)
    ensures
        forall|w: PackageRing| #[trigger] w.spec_code() == v.spec_code() ==> w == v,
{
}

/// Distinct `PackageStatus` values are carried by distinct words.
pub proof fn lemma_package_status_code_injective(v: PackageStatus)
    ensures
        forall|w: PackageStatus| #[trigger] w.spec_code() == v.spec_code() ==> w == v,
{
}

/// Distinct `PackageTrustState` values are carried by distinct words.
pub proof fn lemma_package_trust_state_code_injective(v: PackageTrustState)
    ensures
        forall|w: PackageTrustState| #[trigger] w.spec_code() == v.spec_code() ==> w == v,
{
}

/// Distinct `PacketInterfaceBackend` values are carried by distinct words.
pub proof fn lemma_packet_interface_backend_code_injective(v: PacketInterfaceBackend)
    ensures
        forall|w: PacketInterfaceBackend| #[trigger] w.spec_code() == v.spec_code() ==> w == v,
{
}

/// Distinct `PacketInterfaceLinkState` values are carried by distinct words.
pub proof fn lemma_packet_interface_link_state_code_injective(v: PacketInterfaceLinkState)
    ensures
        forall|w: PacketInterfaceLinkState| #[trigger] w.spec_code() == v.spec_code() ==> w == v,
{
}

/// Distinct `PermissionPolicyState` values are carried by distinct words.
pub proof fn lemma_permission_policy_state_code_injective(v: PermissionPolicyState)
    ensures
        forall|w: PermissionPolicyState| #[trigger] w.spec_code() == v.spec_code() ==> w == v,
{
}

/// Distinct `RuntimeEnvState` values are carried by distinct words.
pub proof fn lemma_runtime_env_state_code_injective(v: RuntimeEnvState)
    ensures
        forall|w: RuntimeEnvState| #[trigger] w.spec_code() == v.spec_code() ==> w == v,
{
}

/// Distinct `RuntimeKind` values are carried by distinct words.
pub proof fn lemma_runtime_kind_code_injective(v: RuntimeKind)
    ensures
        forall|w: RuntimeKind| #[trigger] w.spec_code() == v.spec_code() ==> w == v,
{
}

/// Distinct `RuntimeRunState` values are carried by distinct words.
pub proof fn lemma_runtime_run_state_code_injective(v: RuntimeRunState)
    ensures
        forall|w: RuntimeRunState| #[trigger] w.spec_code() == v.spec_code() ==> w == v,
{
}

/// Distinct `RuntimeStatus` values are carried by distinct words.
pub proof fn lemma_runtime_status_code_injective(v: RuntimeStatus)
    ensures
        forall|w: RuntimeStatus| #[trigger] w.spec_code() == v.spec_code() ==> w == v,
{
}

/// Distinct `RuntimeWorkloadKind` values are carried by distinct words.
pub proof fn lemma_runtime_workload_kind_code_injective(v: RuntimeWorkloadKind)
    ensures
        forall|w: RuntimeWorkloadKind| #[trigger] w.spec_code() == v.spec_code() ==> w == v,
{
}

/// Distinct `SecurityAuditKind` values are carried by distinct words.
pub proof fn lemma_security_audit_kind_code_injective(v: SecurityAuditKind)
    ensures
        forall|w: SecurityAuditKind| #[trigger] w.spec_code() == v.spec_code() ==> w == v,
{
}

/// Distinct `SecurityStatus` values are carried by distinct words.
pub proof fn lemma_security_status_code_injective(v: SecurityStatus)
    ensures
        forall|w: SecurityStatus| #[trigger] w.spec_code() == v.spec_code() ==> w == v,
{
}

/// Distinct `ServiceId` values are carried by distinct words.
pub proof fn lemma_service_id_code_injective(v: ServiceId)
    ensures
        forall|w: ServiceId| #[trigger] w.spec_code() == v.spec_code() ==> w == v,
{
}

/// Distinct `ServiceImageId` values are carried by distinct words.
pub proof fn lemma_service_image_id_code_injective(v: ServiceImageId)
    ensures
        forall|w: ServiceImageId| #[trigger] w.spec_code() == v.spec_code() ==> w == v,
{
}

/// Distinct `SessionInputSource` values are carried by distinct words.
pub proof fn lemma_session_input_source_code_injective(v: SessionInputSource)
    ensures
        forall|w: SessionInputSource| #[trigger] w.spec_code() == v.spec_code() ==> w == v,
{
}

/// Distinct `SessionStatus` values are carried by distinct words.
pub proof fn lemma_session_status_code_injective(v: SessionStatus)
    ensures
        forall|w: SessionStatus| #[trigger] w.spec_code() == v.spec_code() ==> w == v,
{
}

/// Distinct `StatusHealth` values are carried by distinct words.
pub proof fn lemma_status_health_code_injective(v: StatusHealth)
    ensures
        forall|w: StatusHealth| #[trigger] w.spec_code() == v.spec_code() ==> w == v,
{
}

/// Distinct `TerminalStatus` values are carried by distinct words.
pub proof fn lemma_terminal_status_code_injective(v: TerminalStatus)
    ensures
        forall|w: TerminalStatus| #[trigger] w.spec_code() == v.spec_code() ==> w == v,
{
}

/// The `ServiceId` whose word is the low 32 bits of `value`, or `RootManager` when no
/// value has that word.
pub open spec fn service_id_of(value: u64) -> ServiceId {
    if (value as u32) < 20 {
        choose|v: ServiceId| v.spec_code() == value as u32
    } else {
        ServiceId::RootManager
    }
}

/// Decodes a `ServiceId` from its word; unknown words decode to `RootManager`.
#[verifier::when_used_as_spec(service_id_of)]
pub fn service_id_from_word(value: u64) -> (v: ServiceId)
    ensures
        v == service_id_of(value),
{
    let c = value as u32;
    if c == 0 {
        proof {
            assert(ServiceId::RootManager.spec_code() == value as u32);
            lemma_service_id_code_injective(ServiceId::RootManager);
        }
        ServiceId::RootManager
    } else if c == 1 {
        proof {
            assert(ServiceId::Storage.spec_code() == value as u32);
            lemma_service_id_code_injective(ServiceId::Storage);
        }
        ServiceId::Storage
    } else if c == 2 {
        proof {
            assert(ServiceId::Console.spec_code() == value as u32);
            lemma_service_id_code_injective(ServiceId::Console);
        }
        ServiceId::Console
    } else if c == 3 {
        proof {
            assert(ServiceId::Config.spec_code() == value as u32);
            lemma_service_id_code_injective(ServiceId::Config);
        }
        ServiceId::Config
    } else if c == 4 {
        proof {
            assert(ServiceId::Log.spec_code() == value as u32);
            lemma_service_id_code_injective(ServiceId::Log);
        }
        ServiceId::Log
    } else if c == 5 {
        proof {
            assert(ServiceId::Status.spec_code() == value as u32);
            lemma_service_id_code_injective(ServiceId::Status);
        }
        ServiceId::Status
    } else if c == 6 {
        proof {
            assert(ServiceId::Shell.spec_code() == value as u32);
            lemma_service_id_code_injective(ServiceId::Shell);
        }
        ServiceId::Shell
    } else if c == 7 {
        proof {
            assert(ServiceId::Package.spec_code() == value as u32);
            lemma_service_id_code_injective(ServiceId::Package);
        }
        ServiceId::Package
    } else if c == 8 {
        proof {
            assert(ServiceId::Announce.spec_code() == value as u32);
            lemma_service_id_code_injective(ServiceId::Announce);
        }
        ServiceId::Announce
    } else if c == 9 {
        proof {
            assert(ServiceId::Network.spec_code() == value as u32);
            lemma_service_id_code_injective(ServiceId::Network);
        }
        ServiceId::Network
    } else if c == 10 {
        proof {
            assert(ServiceId::Graphics.spec_code() == value as u32);
            lemma_service_id_code_injective(ServiceId::Graphics);
        }
        ServiceId::Graphics
    } else if c == 11 {
        proof {
            assert(ServiceId::Session.spec_code() == value as u32);
            lemma_service_id_code_injective(ServiceId::Session);
        }
        ServiceId::Session
    } else if c == 12 {
        proof {
            assert(ServiceId::DesktopShell.spec_code() == value as u32);
            lemma_service_id_code_injective(ServiceId::DesktopShell);
        }
        ServiceId::DesktopShell
    } else if c == 13 {
        proof {
            assert(ServiceId::Terminal.spec_code() == value as u32);
            lemma_service_id_code_injective(ServiceId::Terminal);
        }
        ServiceId::Terminal
    } else if c == 14 {
        proof {
            assert(ServiceId::Audio.spec_code() == value as u32);
            lemma_service_id_code_injective(ServiceId::Audio);
        }
        ServiceId::Audio
    } else if c == 15 {
        proof {
            assert(ServiceId::Runtime.spec_code() == value as u32);
            lemma_service_id_code_injective(ServiceId::Runtime);
        }
        ServiceId::Runtime
    } else if c == 16 {
        proof {
            assert(ServiceId::Developer.spec_code() == value as u32);
            lemma_service_id_code_injective(ServiceId::Developer);
        }
        ServiceId::Developer
    } else if c == 17 {
        proof {
            assert(ServiceId::Clipboard.spec_code() == value as u32);
            lemma_service_id_code_injective(ServiceId::Clipboard);
        }
        ServiceId::Clipboard
    } else if c == 18 {
        proof {
            assert(ServiceId::Security.spec_code() == value as u32);
            lemma_service_id_code_injective(ServiceId::Security);
        }
        ServiceId::Security
    } else if c == 19 {
        proof {
            assert(ServiceId::SetupWizard.spec_code() == value as u32);
            lemma_service_id_code_injective(ServiceId::SetupWizard);
        }
        ServiceId::SetupWizard
    } else {
        ServiceId::RootManager
    }
}

/// The `LogSeverity` whose word is the low 32 bits of `value`, or `Info` when no
/// value has that word.
pub open spec fn severity_of(value: u64) -> LogSeverity {
    if (value as u32) < 5 {
        choose|v: LogSeverity| v.spec_code() == value as u32
    } else {
        LogSeverity::Info
    }
}

/// Decodes a `LogSeverity` from its word; unknown words decode to `Info`.
#[verifier::when_used_as_spec(severity_of)]
pub fn severity_from_word(value: u64) -> (v: LogSeverity)
    ensures
        v == severity_of(value),
{
    let c = value as u32;
    if c == 0 {
        proof {
            assert(LogSeverity::Trace.spec_code() == value as u32);
            lemma_log_severity_code_injective(LogSeverity::Trace);
        }
        LogSeverity::Trace
    } else if c == 1 {
        proof {
            assert(LogSeverity::Debug.spec_code() == value as u32);
            lemma_log_severity_code_injective(LogSeverity::Debug);
        }
        LogSeverity::Debug
    } else if c == 2 {
        proof {
            assert(LogSeverity::Info.spec_code() == value as u32);
            lemma_log_severity_code_injective(LogSeverity::Info);
        }
        LogSeverity::Info
    } else if c == 3 {
        proof {
            assert(LogSeverity::Warn.spec_code() == value as u32);
            lemma_log_severity_code_injective(LogSeverity::Warn);
        }
        LogSeverity::Warn
    } else if c == 4 {
        proof {
            assert(LogSeverity::Error.spec_code() == value as u32);
            lemma_log_severity_code_injective(LogSeverity::Error);
        }
        LogSeverity::Error
    } else {
        LogSeverity::Info
    }
}

/// The `LogDomain` whose word is the low 32 bits of `value`, or `Service` when no
/// value has that word.
pub open spec fn domain_of(value: u64) -> LogDomain {
    if (value as u32) < 21 {
        choose|v: LogDomain| v.spec_code() == value as u32
    } else {
        LogDomain::Service
    }
}

/// Decodes a `LogDomain` from its word; unknown words decode to `Service`.
#[verifier::when_used_as_spec(domain_of)]
pub fn domain_from_word(value: u64) -> (v: LogDomain)
    ensures
        v == domain_of(value),
{
    let c = value as u32;
    if c == 0 {
        proof {
            assert(LogDomain::Service.spec_code() == value as u32);
            lemma_log_domain_code_injective(LogDomain::Service);
        }
        LogDomain::Service
    } else if c == 1 {
        proof {
            assert(LogDomain::Bootstrap.spec_code() == value as u32);
            lemma_log_domain_code_injective(LogDomain::Bootstrap);
        }
        LogDomain::Bootstrap
    } else if c == 2 {
        proof {
            assert(LogDomain::ServiceManager.spec_code() == value as u32);
            lemma_log_domain_code_injective(LogDomain::ServiceManager);
        }
        LogDomain::ServiceManager
    } else if c == 3 {
        proof {
            assert(LogDomain::Storage.spec_code() == value as u32);
            lemma_log_domain_code_injective(LogDomain::Storage);
        }
        LogDomain::Storage
    } else if c == 4 {
        proof {
            assert(LogDomain::Log.spec_code() == value as u32);
            lemma_log_domain_code_injective(LogDomain::Log);
        }
        LogDomain::Log
    } else if c == 5 {
        proof {
            assert(LogDomain::Config.spec_code() == value as u32);
            lemma_log_domain_code_injective(LogDomain::Config);
        }
        LogDomain::Config
    } else if c == 6 {
        proof {
            assert(LogDomain::Console.spec_code() == value as u32);
            lemma_log_domain_code_injective(LogDomain::Console);
        }
        LogDomain::Console
    } else if c == 7 {
        proof {
            assert(LogDomain::Status.spec_code() == value as u32);
            lemma_log_domain_code_injective(LogDomain::Status);
        }
        LogDomain::Status
    } else if c == 8 {
        proof {
            assert(LogDomain::Ipc.spec_code() == value as u32);
            lemma_log_domain_code_injective(LogDomain::Ipc);
        }
        LogDomain::Ipc
    } else if c == 9 {
        proof {
            assert(LogDomain::Shell.spec_code() == value as u32);
            lemma_log_domain_code_injective(LogDomain::Shell);
        }
        LogDomain::Shell
    } else if c == 10 {
        proof {
            assert(LogDomain::Package.spec_code() == value as u32);
            lemma_log_domain_code_injective(LogDomain::Package);
        }
        LogDomain::Package
    } else if c == 11 {
        proof {
            assert(LogDomain::Network.spec_code() == value as u32);
            lemma_log_domain_code_injective(LogDomain::Network);
        }
        LogDomain::Network
    } else if c == 12 {
        proof {
            assert(LogDomain::Graphics.spec_code() == value as u32);
            lemma_log_domain_code_injective(LogDomain::Graphics);
        }
        LogDomain::Graphics
    } else if c == 13 {
        proof {
            assert(LogDomain::Session.spec_code() == value as u32);
            lemma_log_domain_code_injective(LogDomain::Session);
        }
        LogDomain::Session
    } else if c == 14 {
        proof {
            assert(LogDomain::Desktop.spec_code() == value as u32);
            lemma_log_domain_code_injective(LogDomain::Desktop);
        }
        LogDomain::Desktop
    } else if c == 15 {
        proof {
            assert(LogDomain::App.spec_code() == value as u32);
            lemma_log_domain_code_injective(LogDomain::App);
        }
        LogDomain::App
    } else if c == 16 {
        proof {
            assert(LogDomain::Audio.spec_code() == value as u32);
            lemma_log_domain_code_injective(LogDomain::Audio);
        }
        LogDomain::Audio
    } else if c == 17 {
        proof {
            assert(LogDomain::Runtime.spec_code() == value as u32);
            lemma_log_domain_code_injective(LogDomain::Runtime);
        }
        LogDomain::Runtime
    } else if c == 18 {
        proof {
            assert(LogDomain::Developer.spec_code() == value as u32);
            lemma_log_domain_code_injective(LogDomain::Developer);
        }
        LogDomain::Developer
    } else if c == 19 {
        proof {
            assert(LogDomain::Security.spec_code() == value as u32);
            lemma_log_domain_code_injective(LogDomain::Security);
        }
        LogDomain::Security
    } else if c == 20 {
        proof {
            assert(LogDomain::Kernel.spec_code() == value as u32);
            lemma_log_domain_code_injective(LogDomain::Kernel);
        }
        LogDomain::Kernel
    } else {
        LogDomain::Service
    }
}

/// The `LogEvent` whose word is the low 32 bits of `value`, or `LookupGranted` when no
/// value has that word.
pub open spec fn event_of(value: u64) -> LogEvent {
    if (value as u32) < 65 {
        choose|v: LogEvent| v.spec_code() == value as u32
    } else {
        LogEvent::LookupGranted
    }
}

/// Decodes a `LogEvent` from its word; unknown words decode to `LookupGranted`.
#[verifier::when_used_as_spec(event_of)]
pub fn event_from_word(value: u64) -> (v: LogEvent)
    ensures
        v == event_of(value),
{
    let c = value as u32;
    if c == 0 {
        proof {
            assert(LogEvent::LookupGranted.spec_code() == value as u32);
            lemma_log_event_code_injective(LogEvent::LookupGranted);
        }
        LogEvent::LookupGranted
    } else if c == 1 {
        proof {
            assert(LogEvent::ServiceStarted.spec_code() == value as u32);
            lemma_log_event_code_injective(LogEvent::ServiceStarted);
        }
        LogEvent::ServiceStarted
    } else if c == 2 {
        proof {
            assert(LogEvent::ServiceReady.spec_code() == value as u32);
            lemma_log_event_code_injective(LogEvent::ServiceReady);
        }
        LogEvent::ServiceReady
    } else if c == 3 {
        proof {
            assert(LogEvent::ServiceFailed.spec_code() == value as u32);
            lemma_log_event_code_injective(LogEvent::ServiceFailed);
        }
        LogEvent::ServiceFailed
    } else if c == 4 {
        proof {
            assert(LogEvent::ServiceRestarting.spec_code() == value as u32);
            lemma_log_event_code_injective(LogEvent::ServiceRestarting);
        }
        LogEvent::ServiceRestarting
    } else if c == 5 {
        proof {
            assert(LogEvent::ConfigLoaded.spec_code() == value as u32);
            lemma_log_event_code_injective(LogEvent::ConfigLoaded);
        }
        LogEvent::ConfigLoaded
    } else if c == 6 {
        proof {
            assert(LogEvent::ConfigRead.spec_code() == value as u32);
            lemma_log_event_code_injective(LogEvent::ConfigRead);
        }
        LogEvent::ConfigRead
    } else if c == 7 {
        proof {
            assert(LogEvent::ConsoleWrite.spec_code() == value as u32);
            lemma_log_event_code_injective(LogEvent::ConsoleWrite);
        }
        LogEvent::ConsoleWrite
    } else if c == 8 {
        proof {
            assert(LogEvent::StatusStarted.spec_code() == value as u32);
            lemma_log_event_code_injective(LogEvent::StatusStarted);
        }
        LogEvent::StatusStarted
    } else if c == 9 {
        proof {
            assert(LogEvent::StatusHeartbeat.spec_code() == value as u32);
            lemma_log_event_code_injective(LogEvent::StatusHeartbeat);
        }
        LogEvent::StatusHeartbeat
    } else if c == 10 {
        proof {
            assert(LogEvent::StorageMounted.spec_code() == value as u32);
            lemma_log_event_code_injective(LogEvent::StorageMounted);
        }
        LogEvent::StorageMounted
    } else if c == 11 {
        proof {
            assert(LogEvent::ManifestLoaded.spec_code() == value as u32);
            lemma_log_event_code_injective(LogEvent::ManifestLoaded);
        }
        LogEvent::ManifestLoaded
    } else if c == 12 {
        proof {
            assert(LogEvent::ResourceOpened.spec_code() == value as u32);
            lemma_log_event_code_injective(LogEvent::ResourceOpened);
        }
        LogEvent::ResourceOpened
    } else if c == 13 {
        proof {
            assert(LogEvent::SessionOpened.spec_code() == value as u32);
            lemma_log_event_code_injective(LogEvent::SessionOpened);
        }
        LogEvent::SessionOpened
    } else if c == 14 {
        proof {
            assert(LogEvent::ShellCommand.spec_code() == value as u32);
            lemma_log_event_code_injective(LogEvent::ShellCommand);
        }
        LogEvent::ShellCommand
    } else if c == 15 {
        proof {
            assert(LogEvent::ToolLaunched.spec_code() == value as u32);
            lemma_log_event_code_injective(LogEvent::ToolLaunched);
        }
        LogEvent::ToolLaunched
    } else if c == 16 {
        proof {
            assert(LogEvent::PackageCatalogLoaded.spec_code() == value as u32);
            lemma_log_event_code_injective(LogEvent::PackageCatalogLoaded);
        }
        LogEvent::PackageCatalogLoaded
    } else if c == 17 {
        proof {
            assert(LogEvent::PackageInstalled.spec_code() == value as u32);
            lemma_log_event_code_injective(LogEvent::PackageInstalled);
        }
        LogEvent::PackageInstalled
    } else if c == 18 {
        proof {
            assert(LogEvent::PackageUpdated.spec_code() == value as u32);
            lemma_log_event_code_injective(LogEvent::PackageUpdated);
        }
        LogEvent::PackageUpdated
    } else if c == 19 {
        proof {
            assert(LogEvent::PackageRemoved.spec_code() == value as u32);
            lemma_log_event_code_injective(LogEvent::PackageRemoved);
        }
        LogEvent::PackageRemoved
    } else if c == 20 {
        proof {
            assert(LogEvent::PackageRolledBack.spec_code() == value as u32);
            lemma_log_event_code_injective(LogEvent::PackageRolledBack);
        }
        LogEvent::PackageRolledBack
    } else if c == 21 {
        proof {
            assert(LogEvent::PackageActivationFailed.spec_code() == value as u32);
            lemma_log_event_code_injective(LogEvent::PackageActivationFailed);
        }
        LogEvent::PackageActivationFailed
    } else if c == 22 {
        proof {
            assert(LogEvent::NetworkInterfaceReady.spec_code() == value as u32);
            lemma_log_event_code_injective(LogEvent::NetworkInterfaceReady);
        }
        LogEvent::NetworkInterfaceReady
    } else if c == 23 {
        proof {
            assert(LogEvent::NetworkAddressConfigured.spec_code() == value as u32);
            lemma_log_event_code_injective(LogEvent::NetworkAddressConfigured);
        }
        LogEvent::NetworkAddressConfigured
    } else if c == 24 {
        proof {
            assert(LogEvent::NetworkResolveCompleted.spec_code() == value as u32);
            lemma_log_event_code_injective(LogEvent::NetworkResolveCompleted);
        }
        LogEvent::NetworkResolveCompleted
    } else if c == 25 {
        proof {
            assert(LogEvent::NetworkProbeCompleted.spec_code() == value as u32);
            lemma_log_event_code_injective(LogEvent::NetworkProbeCompleted);
        }
        LogEvent::NetworkProbeCompleted
    } else if c == 26 {
        proof {
            assert(LogEvent::NetworkLinkChanged.spec_code() == value as u32);
            lemma_log_event_code_injective(LogEvent::NetworkLinkChanged);
        }
        LogEvent::NetworkLinkChanged
    } else if c == 27 {
        proof {
            assert(LogEvent::DisplayOutputReady.spec_code() == value as u32);
            lemma_log_event_code_injective(LogEvent::DisplayOutputReady);
        }
        LogEvent::DisplayOutputReady
    } else if c == 28 {
        proof {
            assert(LogEvent::SurfaceCreated.spec_code() == value as u32);
            lemma_log_event_code_injective(LogEvent::SurfaceCreated);
        }
        LogEvent::SurfaceCreated
    } else if c == 29 {
        proof {
            assert(LogEvent::SurfaceUpdated.spec_code() == value as u32);
            lemma_log_event_code_injective(LogEvent::SurfaceUpdated);
        }
        LogEvent::SurfaceUpdated
    } else if c == 30 {
        proof {
            assert(LogEvent::CompositorPresented.spec_code() == value as u32);
            lemma_log_event_code_injective(LogEvent::CompositorPresented);
        }
        LogEvent::CompositorPresented
    } else if c == 31 {
        proof {
            assert(LogEvent::SessionReady.spec_code() == value as u32);
            lemma_log_event_code_injective(LogEvent::SessionReady);
        }
        LogEvent::SessionReady
    } else if c == 32 {
        proof {
            assert(LogEvent::SessionFocusChanged.spec_code() == value as u32);
            lemma_log_event_code_injective(LogEvent::SessionFocusChanged);
        }
        LogEvent::SessionFocusChanged
    } else if c == 33 {
        proof {
            assert(LogEvent::DesktopReady.spec_code() == value as u32);
            lemma_log_event_code_injective(LogEvent::DesktopReady);
        }
        LogEvent::DesktopReady
    } else if c == 34 {
        proof {
            assert(LogEvent::DesktopAppLaunched.spec_code() == value as u32);
            lemma_log_event_code_injective(LogEvent::DesktopAppLaunched);
        }
        LogEvent::DesktopAppLaunched
    } else if c == 35 {
        proof {
            assert(LogEvent::DesktopAppExited.spec_code() == value as u32);
            lemma_log_event_code_injective(LogEvent::DesktopAppExited);
        }
        LogEvent::DesktopAppExited
    } else if c == 36 {
        proof {
            assert(LogEvent::DesktopFocusChanged.spec_code() == value as u32);
            lemma_log_event_code_injective(LogEvent::DesktopFocusChanged);
        }
        LogEvent::DesktopFocusChanged
    } else if c == 37 {
        proof {
            assert(LogEvent::AppRendered.spec_code() == value as u32);
            lemma_log_event_code_injective(LogEvent::AppRendered);
        }
        LogEvent::AppRendered
    } else if c == 38 {
        proof {
            assert(LogEvent::InputSourceReady.spec_code() == value as u32);
            lemma_log_event_code_injective(LogEvent::InputSourceReady);
        }
        LogEvent::InputSourceReady
    } else if c == 39 {
        proof {
            assert(LogEvent::InputKeyDelivered.spec_code() == value as u32);
            lemma_log_event_code_injective(LogEvent::InputKeyDelivered);
        }
        LogEvent::InputKeyDelivered
    } else if c == 40 {
        proof {
            assert(LogEvent::NetworkLeaseChanged.spec_code() == value as u32);
            lemma_log_event_code_injective(LogEvent::NetworkLeaseChanged);
        }
        LogEvent::NetworkLeaseChanged
    } else if c == 41 {
        proof {
            assert(LogEvent::NetworkSocketOpened.spec_code() == value as u32);
            lemma_log_event_code_injective(LogEvent::NetworkSocketOpened);
        }
        LogEvent::NetworkSocketOpened
    } else if c == 42 {
        proof {
            assert(LogEvent::NetworkSocketClosed.spec_code() == value as u32);
            lemma_log_event_code_injective(LogEvent::NetworkSocketClosed);
        }
        LogEvent::NetworkSocketClosed
    } else if c == 43 {
        proof {
            assert(LogEvent::TerminalSessionOpened.spec_code() == value as u32);
            lemma_log_event_code_injective(LogEvent::TerminalSessionOpened);
        }
        LogEvent::TerminalSessionOpened
    } else if c == 44 {
        proof {
            assert(LogEvent::TerminalSessionClosed.spec_code() == value as u32);
            lemma_log_event_code_injective(LogEvent::TerminalSessionClosed);
        }
        LogEvent::TerminalSessionClosed
    } else if c == 45 {
        proof {
            assert(LogEvent::AudioEndpointReady.spec_code() == value as u32);
            lemma_log_event_code_injective(LogEvent::AudioEndpointReady);
        }
        LogEvent::AudioEndpointReady
    } else if c == 46 {
        proof {
            assert(LogEvent::AudioStreamOpened.spec_code() == value as u32);
            lemma_log_event_code_injective(LogEvent::AudioStreamOpened);
        }
        LogEvent::AudioStreamOpened
    } else if c == 47 {
        proof {
            assert(LogEvent::AudioStreamStarted.spec_code() == value as u32);
            lemma_log_event_code_injective(LogEvent::AudioStreamStarted);
        }
        LogEvent::AudioStreamStarted
    } else if c == 48 {
        proof {
            assert(LogEvent::AudioStreamStopped.spec_code() == value as u32);
            lemma_log_event_code_injective(LogEvent::AudioStreamStopped);
        }
        LogEvent::AudioStreamStopped
    } else if c == 49 {
        proof {
            assert(LogEvent::AudioStreamClosed.spec_code() == value as u32);
            lemma_log_event_code_injective(LogEvent::AudioStreamClosed);
        }
        LogEvent::AudioStreamClosed
    } else if c == 50 {
        proof {
            assert(LogEvent::RuntimeEnvironmentCreated.spec_code() == value as u32);
            lemma_log_event_code_injective(LogEvent::RuntimeEnvironmentCreated);
        }
        LogEvent::RuntimeEnvironmentCreated
    } else if c == 51 {
        proof {
            assert(LogEvent::RuntimeEnvironmentDestroyed.spec_code() == value as u32);
            lemma_log_event_code_injective(LogEvent::RuntimeEnvironmentDestroyed);
        }
        LogEvent::RuntimeEnvironmentDestroyed
    } else if c == 52 {
        proof {
            assert(LogEvent::RuntimeLaunchStarted.spec_code() == value as u32);
            lemma_log_event_code_injective(LogEvent::RuntimeLaunchStarted);
        }
        LogEvent::RuntimeLaunchStarted
    } else if c == 53 {
        proof {
            assert(LogEvent::RuntimeLaunchExited.spec_code() == value as u32);
            lemma_log_event_code_injective(LogEvent::RuntimeLaunchExited);
        }
        LogEvent::RuntimeLaunchExited
    } else if c == 54 {
        proof {
            assert(LogEvent::RuntimeMappedRead.spec_code() == value as u32);
            lemma_log_event_code_injective(LogEvent::RuntimeMappedRead);
        }
        LogEvent::RuntimeMappedRead
    } else if c == 55 {
        proof {
            assert(LogEvent::DeveloperCatalogLoaded.spec_code() == value as u32);
            lemma_log_event_code_injective(LogEvent::DeveloperCatalogLoaded);
        }
        LogEvent::DeveloperCatalogLoaded
    } else if c == 56 {
        proof {
            assert(LogEvent::DeveloperBuildStarted.spec_code() == value as u32);
            lemma_log_event_code_injective(LogEvent::DeveloperBuildStarted);
        }
        LogEvent::DeveloperBuildStarted
    } else if c == 57 {
        proof {
            assert(LogEvent::DeveloperBuildFinished.spec_code() == value as u32);
            lemma_log_event_code_injective(LogEvent::DeveloperBuildFinished);
        }
        LogEvent::DeveloperBuildFinished
    } else if c == 58 {
        proof {
            assert(LogEvent::DeveloperBuildFailed.spec_code() == value as u32);
            lemma_log_event_code_injective(LogEvent::DeveloperBuildFailed);
        }
        LogEvent::DeveloperBuildFailed
    } else if c == 59 {
        proof {
            assert(LogEvent::DeveloperArtifactOpened.spec_code() == value as u32);
            lemma_log_event_code_injective(LogEvent::DeveloperArtifactOpened);
        }
        LogEvent::DeveloperArtifactOpened
    } else if c == 60 {
        proof {
            assert(LogEvent::SecurityPolicyChanged.spec_code() == value as u32);
            lemma_log_event_code_injective(LogEvent::SecurityPolicyChanged);
        }
        LogEvent::SecurityPolicyChanged
    } else if c == 61 {
        proof {
            assert(LogEvent::SecurityLaunchDenied.spec_code() == value as u32);
            lemma_log_event_code_injective(LogEvent::SecurityLaunchDenied);
        }
        LogEvent::SecurityLaunchDenied
    } else if c == 62 {
        proof {
            assert(LogEvent::RuntimeApprovalPending.spec_code() == value as u32);
            lemma_log_event_code_injective(LogEvent::RuntimeApprovalPending);
        }
        LogEvent::RuntimeApprovalPending
    } else if c == 63 {
        proof {
            assert(LogEvent::RuntimeApprovalChanged.spec_code() == value as u32);
            lemma_log_event_code_injective(LogEvent::RuntimeApprovalChanged);
        }
        LogEvent::RuntimeApprovalChanged
    } else if c == 64 {
        proof {
            assert(LogEvent::KernelTrap.spec_code() == value as u32);
            lemma_log_event_code_injective(LogEvent::KernelTrap);
        }
        LogEvent::KernelTrap
    } else {
        LogEvent::LookupGranted
    }
}

/// The `SecurityAuditKind` whose word is the low 32 bits of `value`, or `PolicyChanged` when no
/// value has that word.
pub open spec fn security_audit_kind_of(value: u64) -> SecurityAuditKind {
    if (value as u32) < 4 {
        choose|v: SecurityAuditKind| v.spec_code() == value as u32
    } else {
        SecurityAuditKind::PolicyChanged
    }
}

/// Decodes a `SecurityAuditKind` from its word; unknown words decode to `PolicyChanged`.
#[verifier::when_used_as_spec(security_audit_kind_of)]
pub fn security_audit_kind_from_word(value: u64) -> (v: SecurityAuditKind)
    ensures
        v == security_audit_kind_of(value),
{
    let c = value as u32;
    if c == 0 {
        proof {
            assert(SecurityAuditKind::PolicyChanged.spec_code() == value as u32);
            lemma_security_audit_kind_code_injective(SecurityAuditKind::PolicyChanged);
        }
        SecurityAuditKind::PolicyChanged
    } else if c == 1 {
        proof {
            assert(SecurityAuditKind::LaunchDenied.spec_code() == value as u32);
            lemma_security_audit_kind_code_injective(SecurityAuditKind::LaunchDenied);
        }
        SecurityAuditKind::LaunchDenied
    } else if c == 2 {
        proof {
            assert(SecurityAuditKind::RuntimeApprovalRequested.spec_code() == value as u32);
            lemma_security_audit_kind_code_injective(SecurityAuditKind::RuntimeApprovalRequested);
        }
        SecurityAuditKind::RuntimeApprovalRequested
    } else if c == 3 {
        proof {
            assert(SecurityAuditKind::RuntimeApprovalChanged.spec_code() == value as u32);
            lemma_security_audit_kind_code_injective(SecurityAuditKind::RuntimeApprovalChanged);
        }
        SecurityAuditKind::RuntimeApprovalChanged
    } else {
        SecurityAuditKind::PolicyChanged
    }
}

/// The `NetworkStatus` whose word is the low 32 bits of `value`, or `Busy` when no
/// value has that word.
pub open spec fn network_status_of(value: u64) -> NetworkStatus {
    if (value as u32) < 10 {
        choose|v: NetworkStatus| v.spec_code() == value as u32
    } else {
        NetworkStatus::Busy
    }
}

/// Decodes a `NetworkStatus` from its word; unknown words decode to `Busy`.
#[verifier::when_used_as_spec(network_status_of)]
pub fn network_status_from_word(value: u64) -> (v: NetworkStatus)
    ensures
        v == network_status_of(value),
{
    let c = value as u32;
    if c == 0 {
        proof {
            assert(NetworkStatus::Success.spec_code() == value as u32);
            lemma_network_status_code_injective(NetworkStatus::Success);
        }
        NetworkStatus::Success
    } else if c == 1 {
        proof {
            assert(NetworkStatus::NotFound.spec_code() == value as u32);
            lemma_network_status_code_injective(NetworkStatus::NotFound);
        }
        NetworkStatus::NotFound
    } else if c == 2 {
        proof {
            assert(NetworkStatus::Busy.spec_code() == value as u32);
            lemma_network_status_code_injective(NetworkStatus::Busy);
        }
        NetworkStatus::Busy
    } else if c == 3 {
        proof {
            assert(NetworkStatus::InvalidTarget.spec_code() == value as u32);
            lemma_network_status_code_injective(NetworkStatus::InvalidTarget);
        }
        NetworkStatus::InvalidTarget
    } else if c == 4 {
        proof {
            assert(NetworkStatus::Timeout.spec_code() == value as u32);
            lemma_network_status_code_injective(NetworkStatus::Timeout);
        }
        NetworkStatus::Timeout
    } else if c == 5 {
        proof {
            assert(NetworkStatus::End.spec_code() == value as u32);
            lemma_network_status_code_injective(NetworkStatus::End);
        }
        NetworkStatus::End
    } else if c == 6 {
        proof {
            assert(NetworkStatus::Unsupported.spec_code() == value as u32);
            lemma_network_status_code_injective(NetworkStatus::Unsupported);
        }
        NetworkStatus::Unsupported
    } else if c == 7 {
        proof {
            assert(NetworkStatus::Denied.spec_code() == value as u32);
            lemma_network_status_code_injective(NetworkStatus::Denied);
        }
        NetworkStatus::Denied
    } else if c == 8 {
        proof {
            assert(NetworkStatus::CapacityExceeded.spec_code() == value as u32);
            lemma_network_status_code_injective(NetworkStatus::CapacityExceeded);
        }
        NetworkStatus::CapacityExceeded
    } else if c == 9 {
        proof {
            assert(NetworkStatus::Closed.spec_code() == value as u32);
            lemma_network_status_code_injective(NetworkStatus::Closed);
        }
        NetworkStatus::Closed
    } else {
        NetworkStatus::Busy
    }
}

/// The `AudioStatus` whose word is the low 32 bits of `value`, or `Busy` when no
/// value has that word.
pub open spec fn audio_status_of(value: u64) -> AudioStatus {
    if (value as u32) < 7 {
        choose|v: AudioStatus| v.spec_code() == value as u32
    } else {
        AudioStatus::Busy
    }
}

/// Decodes a `AudioStatus` from its word; unknown words decode to `Busy`.
#[verifier::when_used_as_spec(audio_status_of)]
pub fn audio_status_from_word(value: u64) -> (v: AudioStatus)
    ensures
        v == audio_status_of(value),
{
    let c = value as u32;
    if c == 0 {
        proof {
            assert(AudioStatus::Success.spec_code() == value as u32);
            lemma_audio_status_code_injective(AudioStatus::Success);
        }
        AudioStatus::Success
    } else if c == 1 {
        proof {
            assert(AudioStatus::NotFound.spec_code() == value as u32);
            lemma_audio_status_code_injective(AudioStatus::NotFound);
        }
        AudioStatus::NotFound
    } else if c == 2 {
        proof {
            assert(AudioStatus::Busy.spec_code() == value as u32);
            lemma_audio_status_code_injective(AudioStatus::Busy);
        }
        AudioStatus::Busy
    } else if c == 3 {
        proof {
            assert(AudioStatus::Unsupported.spec_code() == value as u32);
            lemma_audio_status_code_injective(AudioStatus::Unsupported);
        }
        AudioStatus::Unsupported
    } else if c == 4 {
        proof {
            assert(AudioStatus::Denied.spec_code() == value as u32);
            lemma_audio_status_code_injective(AudioStatus::Denied);
        }
        AudioStatus::Denied
    } else if c == 5 {
        proof {
            assert(AudioStatus::CapacityExceeded.spec_code() == value as u32);
            lemma_audio_status_code_injective(AudioStatus::CapacityExceeded);
        }
        AudioStatus::CapacityExceeded
    } else if c == 6 {
        proof {
            assert(AudioStatus::Closed.spec_code() == value as u32);
            lemma_audio_status_code_injective(AudioStatus::Closed);
        }
        AudioStatus::Closed
    } else {
        AudioStatus::Busy
    }
}

/// The `AudioEndpointBackend` whose word is the low 32 bits of `value`, or `Unknown` when no
/// value has that word.
pub open spec fn audio_endpoint_backend_of(value: u64) -> AudioEndpointBackend {
    if (value as u32) < 2 {
        choose|v: AudioEndpointBackend| v.spec_code() == value as u32
    } else {
        AudioEndpointBackend::Unknown
    }
}

/// Decodes a `AudioEndpointBackend` from its word; unknown words decode to `Unknown`.
#[verifier::when_used_as_spec(audio_endpoint_backend_of)]
pub fn audio_endpoint_backend_from_word(value: u64) -> (v: AudioEndpointBackend)
    ensures
        v == audio_endpoint_backend_of(value),
{
    let c = value as u32;
    if c == 0 {
        proof {
            assert(AudioEndpointBackend::Unknown.spec_code() == value as u32);
            lemma_audio_endpoint_backend_code_injective(AudioEndpointBackend::Unknown);
        }
        AudioEndpointBackend::Unknown
    } else if c == 1 {
        proof {
            assert(AudioEndpointBackend::PcSpeaker.spec_code() == value as u32);
            lemma_audio_endpoint_backend_code_injective(AudioEndpointBackend::PcSpeaker);
        }
        AudioEndpointBackend::PcSpeaker
    } else {
        AudioEndpointBackend::Unknown
    }
}

/// The `AudioEndpointDirection` whose word is the low 32 bits of `value`, or `Output` when no
/// value has that word.
pub open spec fn audio_endpoint_direction_of(value: u64) -> AudioEndpointDirection {
    if (value as u32) < 2 {
        choose|v: AudioEndpointDirection| v.spec_code() == value as u32
    } else {
        AudioEndpointDirection::Output
    }
}

/// Decodes a `AudioEndpointDirection` from its word; unknown words decode to `Output`.
#[verifier::when_used_as_spec(audio_endpoint_direction_of)]
pub fn audio_endpoint_direction_from_word(value: u64) -> (v: AudioEndpointDirection)
    ensures
        v == audio_endpoint_direction_of(value),
{
    let c = value as u32;
    if c == 0 {
        proof {
            assert(AudioEndpointDirection::Output.spec_code() == value as u32);
            lemma_audio_endpoint_direction_code_injective(AudioEndpointDirection::Output);
        }
        AudioEndpointDirection::Output
    } else if c == 1 {
        proof {
            assert(AudioEndpointDirection::Input.spec_code() == value as u32);
            lemma_audio_endpoint_direction_code_injective(AudioEndpointDirection::Input);
        }
        AudioEndpointDirection::Input
    } else {
        AudioEndpointDirection::Output
    }
}

/// The `AudioEndpointState` whose word is the low 32 bits of `value`, or `Idle` when no
/// value has that word.
pub open spec fn audio_endpoint_state_of(value: u64) -> AudioEndpointState {
    if (value as u32) < 3 {
        choose|v: AudioEndpointState| v.spec_code() == value as u32
    } else {
        AudioEndpointState::Idle
    }
}

/// Decodes a `AudioEndpointState` from its word; unknown words decode to `Idle`.
#[verifier::when_used_as_spec(audio_endpoint_state_of)]
pub fn audio_endpoint_state_from_word(value: u64) -> (v: AudioEndpointState)
    ensures
        v == audio_endpoint_state_of(value),
{
    let c = value as u32;
    if c == 0 {
        proof {
            assert(AudioEndpointState::Idle.spec_code() == value as u32);
            lemma_audio_endpoint_state_code_injective(AudioEndpointState::Idle);
        }
        AudioEndpointState::Idle
    } else if c == 1 {
        proof {
            assert(AudioEndpointState::Offline.spec_code() == value as u32);
            lemma_audio_endpoint_state_code_injective(AudioEndpointState::Offline);
        }
        AudioEndpointState::Offline
    } else if c == 2 {
        proof {
            assert(AudioEndpointState::Active.spec_code() == value as u32);
            lemma_audio_endpoint_state_code_injective(AudioEndpointState::Active);
        }
        AudioEndpointState::Active
    } else {
        AudioEndpointState::Idle
    }
}

/// The `AudioStreamDirection` whose word is the low 32 bits of `value`, or `Playback` when no
/// value has that word.
pub open spec fn audio_stream_direction_of(value: u64) -> AudioStreamDirection {
    if (value as u32) < 2 {
        choose|v: AudioStreamDirection| v.spec_code() == value as u32
    } else {
        AudioStreamDirection::Playback
    }
}

/// Decodes a `AudioStreamDirection` from its word; unknown words decode to `Playback`.
#[verifier::when_used_as_spec(audio_stream_direction_of)]
pub fn audio_stream_direction_from_word(value: u64) -> (v: AudioStreamDirection)
    ensures
        v == audio_stream_direction_of(value),
{
    let c = value as u32;
    if c == 0 {
        proof {
            assert(AudioStreamDirection::Playback.spec_code() == value as u32);
            lemma_audio_stream_direction_code_injective(AudioStreamDirection::Playback);
        }
        AudioStreamDirection::Playback
    } else if c == 1 {
        proof {
            assert(AudioStreamDirection::Capture.spec_code() == value as u32);
            lemma_audio_stream_direction_code_injective(AudioStreamDirection::Capture);
        }
        AudioStreamDirection::Capture
    } else {
        AudioStreamDirection::Playback
    }
}

/// The `AudioStreamState` whose word is the low 32 bits of `value`, or `Idle` when no
/// value has that word.
pub open spec fn audio_stream_state_of(value: u64) -> AudioStreamState {
    if (value as u32) < 4 {
        choose|v: AudioStreamState| v.spec_code() == value as u32
    } else {
        AudioStreamState::Idle
    }
}

/// Decodes a `AudioStreamState` from its word; unknown words decode to `Idle`.
#[verifier::when_used_as_spec(audio_stream_state_of)]
pub fn audio_stream_state_from_word(value: u64) -> (v: AudioStreamState)
    ensures
        v == audio_stream_state_of(value),
{
    let c = value as u32;
    if c == 0 {
        proof {
            assert(AudioStreamState::Idle.spec_code() == value as u32);
            lemma_audio_stream_state_code_injective(AudioStreamState::Idle);
        }
        AudioStreamState::Idle
    } else if c == 1 {
        proof {
            assert(AudioStreamState::Active.spec_code() == value as u32);
            lemma_audio_stream_state_code_injective(AudioStreamState::Active);
        }
        AudioStreamState::Active
    } else if c == 2 {
        proof {
            assert(AudioStreamState::Closed.spec_code() == value as u32);
            lemma_audio_stream_state_code_injective(AudioStreamState::Closed);
        }
        AudioStreamState::Closed
    } else if c == 3 {
        proof {
            assert(AudioStreamState::Failed.spec_code() == value as u32);
            lemma_audio_stream_state_code_injective(AudioStreamState::Failed);
        }
        AudioStreamState::Failed
    } else {
        AudioStreamState::Idle
    }
}

/// The `RuntimeStatus` whose word is the low 32 bits of `value`, or `Busy` when no
/// value has that word.
pub open spec fn runtime_status_of(value: u64) -> RuntimeStatus {
    if (value as u32) < 8 {
        choose|v: RuntimeStatus| v.spec_code() == value as u32
    } else {
        RuntimeStatus::Busy
    }
}

/// Decodes a `RuntimeStatus` from its word; unknown words decode to `Busy`.
#[verifier::when_used_as_spec(runtime_status_of)]
pub fn runtime_status_from_word(value: u64) -> (v: RuntimeStatus)
    ensures
        v == runtime_status_of(value),
{
    let c = value as u32;
    if c == 0 {
        proof {
            assert(RuntimeStatus::Success.spec_code() == value as u32);
            lemma_runtime_status_code_injective(RuntimeStatus::Success);
        }
        RuntimeStatus::Success
    } else if c == 1 {
        proof {
            assert(RuntimeStatus::NotFound.spec_code() == value as u32);
            lemma_runtime_status_code_injective(RuntimeStatus::NotFound);
        }
        RuntimeStatus::NotFound
    } else if c == 2 {
        proof {
            assert(RuntimeStatus::Busy.spec_code() == value as u32);
            lemma_runtime_status_code_injective(RuntimeStatus::Busy);
        }
        RuntimeStatus::Busy
    } else if c == 3 {
        proof {
            assert(RuntimeStatus::Denied.spec_code() == value as u32);
            lemma_runtime_status_code_injective(RuntimeStatus::Denied);
        }
        RuntimeStatus::Denied
    } else if c == 4 {
        proof {
            assert(RuntimeStatus::InvalidPath.spec_code() == value as u32);
            lemma_runtime_status_code_injective(RuntimeStatus::InvalidPath);
        }
        RuntimeStatus::InvalidPath
    } else if c == 5 {
        proof {
            assert(RuntimeStatus::Unsupported.spec_code() == value as u32);
            lemma_runtime_status_code_injective(RuntimeStatus::Unsupported);
        }
        RuntimeStatus::Unsupported
    } else if c == 6 {
        proof {
            assert(RuntimeStatus::Closed.spec_code() == value as u32);
            lemma_runtime_status_code_injective(RuntimeStatus::Closed);
        }
        RuntimeStatus::Closed
    } else if c == 7 {
        proof {
            assert(RuntimeStatus::PendingApproval.spec_code() == value as u32);
            lemma_runtime_status_code_injective(RuntimeStatus::PendingApproval);
        }
        RuntimeStatus::PendingApproval
    } else {
        RuntimeStatus::Busy
    }
}

/// The `RuntimeKind` whose word is the low 32 bits of `value`, or `Posix` when no
/// value has that word.
pub open spec fn runtime_kind_of(value: u64) -> RuntimeKind {
    if (value as u32) < 2 {
        choose|v: RuntimeKind| v.spec_code() == value as u32
    } else {
        RuntimeKind::Posix
    }
}

/// Decodes a `RuntimeKind` from its word; unknown words decode to `Posix`.
#[verifier::when_used_as_spec(runtime_kind_of)]
pub fn runtime_kind_from_word(value: u64) -> (v: RuntimeKind)
    ensures
        v == runtime_kind_of(value),
{
    let c = value as u32;
    if c == 0 {
        proof {
            assert(RuntimeKind::Posix.spec_code() == value as u32);
            lemma_runtime_kind_code_injective(RuntimeKind::Posix);
        }
        RuntimeKind::Posix
    } else if c == 1 {
        proof {
            assert(RuntimeKind::Windows.spec_code() == value as u32);
            lemma_runtime_kind_code_injective(RuntimeKind::Windows);
        }
        RuntimeKind::Windows
    } else {
        RuntimeKind::Posix
    }
}

/// The `RuntimeEnvState` whose word is the low 32 bits of `value`, or `Ready` when no
/// value has that word.
pub open spec fn runtime_env_state_of(value: u64) -> RuntimeEnvState {
    if (value as u32) < 5 {
        choose|v: RuntimeEnvState| v.spec_code() == value as u32
    } else {
        RuntimeEnvState::Ready
    }
}

/// Decodes a `RuntimeEnvState` from its word; unknown words decode to `Ready`.
#[verifier::when_used_as_spec(runtime_env_state_of)]
pub fn runtime_env_state_from_word(value: u64) -> (v: RuntimeEnvState)
    ensures
        v == runtime_env_state_of(value),
{
    let c = value as u32;
    if c == 0 {
        proof {
            assert(RuntimeEnvState::Ready.spec_code() == value as u32);
            lemma_runtime_env_state_code_injective(RuntimeEnvState::Ready);
        }
        RuntimeEnvState::Ready
    } else if c == 1 {
        proof {
            assert(RuntimeEnvState::Busy.spec_code() == value as u32);
            lemma_runtime_env_state_code_injective(RuntimeEnvState::Busy);
        }
        RuntimeEnvState::Busy
    } else if c == 2 {
        proof {
            assert(RuntimeEnvState::Destroyed.spec_code() == value as u32);
            lemma_runtime_env_state_code_injective(RuntimeEnvState::Destroyed);
        }
        RuntimeEnvState::Destroyed
    } else if c == 3 {
        proof {
            assert(RuntimeEnvState::PendingApproval.spec_code() == value as u32);
            lemma_runtime_env_state_code_injective(RuntimeEnvState::PendingApproval);
        }
        RuntimeEnvState::PendingApproval
    } else if c == 4 {
        proof {
            assert(RuntimeEnvState::Denied.spec_code() == value as u32);
            lemma_runtime_env_state_code_injective(RuntimeEnvState::Denied);
        }
        RuntimeEnvState::Denied
    } else {
        RuntimeEnvState::Ready
    }
}

/// The `RuntimeRunState` whose word is the low 32 bits of `value`, or `Launching` when no
/// value has that word.
pub open spec fn runtime_run_state_of(value: u64) -> RuntimeRunState {
    if (value as u32) < 4 {
        choose|v: RuntimeRunState| v.spec_code() == value as u32
    } else {
        RuntimeRunState::Launching
    }
}

/// Decodes a `RuntimeRunState` from its word; unknown words decode to `Launching`.
#[verifier::when_used_as_spec(runtime_run_state_of)]
pub fn runtime_run_state_from_word(value: u64) -> (v: RuntimeRunState)
    ensures
        v == runtime_run_state_of(value),
{
    let c = value as u32;
    if c == 0 {
        proof {
            assert(RuntimeRunState::Launching.spec_code() == value as u32);
            lemma_runtime_run_state_code_injective(RuntimeRunState::Launching);
        }
        RuntimeRunState::Launching
    } else if c == 1 {
        proof {
            assert(RuntimeRunState::Running.spec_code() == value as u32);
            lemma_runtime_run_state_code_injective(RuntimeRunState::Running);
        }
        RuntimeRunState::Running
    } else if c == 2 {
        proof {
            assert(RuntimeRunState::Exited.spec_code() == value as u32);
            lemma_runtime_run_state_code_injective(RuntimeRunState::Exited);
        }
        RuntimeRunState::Exited
    } else if c == 3 {
        proof {
            assert(RuntimeRunState::Failed.spec_code() == value as u32);
            lemma_runtime_run_state_code_injective(RuntimeRunState::Failed);
        }
        RuntimeRunState::Failed
    } else {
        RuntimeRunState::Launching
    }
}

/// The `RuntimeWorkloadKind` whose word is the low 32 bits of `value`, or `Inspect` when no
/// value has that word.
pub open spec fn runtime_workload_kind_of(value: u64) -> RuntimeWorkloadKind {
    if (value as u32) < 4 {
        choose|v: RuntimeWorkloadKind| v.spec_code() == value as u32
    } else {
        RuntimeWorkloadKind::Inspect
    }
}

/// Decodes a `RuntimeWorkloadKind` from its word; unknown words decode to `Inspect`.
#[verifier::when_used_as_spec(runtime_workload_kind_of)]
pub fn runtime_workload_kind_from_word(value: u64) -> (v: RuntimeWorkloadKind)
    ensures
        v == runtime_workload_kind_of(value),
{
    let c = value as u32;
    if c == 0 {
        proof {
            assert(RuntimeWorkloadKind::Inspect.spec_code() == value as u32);
            lemma_runtime_workload_kind_code_injective(RuntimeWorkloadKind::Inspect);
        }
        RuntimeWorkloadKind::Inspect
    } else if c == 1 {
        proof {
            assert(RuntimeWorkloadKind::Env.spec_code() == value as u32);
            lemma_runtime_workload_kind_code_injective(RuntimeWorkloadKind::Env);
        }
        RuntimeWorkloadKind::Env
    } else if c == 2 {
        proof {
            assert(RuntimeWorkloadKind::Mounts.spec_code() == value as u32);
            lemma_runtime_workload_kind_code_injective(RuntimeWorkloadKind::Mounts);
        }
        RuntimeWorkloadKind::Mounts
    } else if c == 3 {
        proof {
            assert(RuntimeWorkloadKind::Cat.spec_code() == value as u32);
            lemma_runtime_workload_kind_code_injective(RuntimeWorkloadKind::Cat);
        }
        RuntimeWorkloadKind::Cat
    } else {
        RuntimeWorkloadKind::Inspect
    }
}

/// The `NetworkConfigMode` whose word is the low 32 bits of `value`, or `Static` when no
/// value has that word.
pub open spec fn network_config_mode_of(value: u64) -> NetworkConfigMode {
    if (value as u32) < 2 {
        choose|v: NetworkConfigMode| v.spec_code() == value as u32
    } else {
        NetworkConfigMode::Static
    }
}

/// Decodes a `NetworkConfigMode` from its word; unknown words decode to `Static`.
#[verifier::when_used_as_spec(network_config_mode_of)]
pub fn network_config_mode_from_word(value: u64) -> (v: NetworkConfigMode)
    ensures
        v == network_config_mode_of(value),
{
    let c = value as u32;
    if c == 0 {
        proof {
            assert(NetworkConfigMode::Static.spec_code() == value as u32);
            lemma_network_config_mode_code_injective(NetworkConfigMode::Static);
        }
        NetworkConfigMode::Static
    } else if c == 1 {
        proof {
            assert(NetworkConfigMode::Dynamic.spec_code() == value as u32);
            lemma_network_config_mode_code_injective(NetworkConfigMode::Dynamic);
        }
        NetworkConfigMode::Dynamic
    } else {
        NetworkConfigMode::Static
    }
}

/// The `NetworkConfigState` whose word is the low 32 bits of `value`, or `Configured` when no
/// value has that word.
pub open spec fn network_config_state_of(value: u64) -> NetworkConfigState {
    if (value as u32) < 4 {
        choose|v: NetworkConfigState| v.spec_code() == value as u32
    } else {
        NetworkConfigState::Configured
    }
}

/// Decodes a `NetworkConfigState` from its word; unknown words decode to `Configured`.
#[verifier::when_used_as_spec(network_config_state_of)]
pub fn network_config_state_from_word(value: u64) -> (v: NetworkConfigState)
    ensures
        v == network_config_state_of(value),
{
    let c = value as u32;
    if c == 0 {
        proof {
            assert(NetworkConfigState::Configured.spec_code() == value as u32);
            lemma_network_config_state_code_injective(NetworkConfigState::Configured);
        }
        NetworkConfigState::Configured
    } else if c == 1 {
        proof {
            assert(NetworkConfigState::Pending.spec_code() == value as u32);
            lemma_network_config_state_code_injective(NetworkConfigState::Pending);
        }
        NetworkConfigState::Pending
    } else if c == 2 {
        proof {
            assert(NetworkConfigState::FallbackStatic.spec_code() == value as u32);
            lemma_network_config_state_code_injective(NetworkConfigState::FallbackStatic);
        }
        NetworkConfigState::FallbackStatic
    } else if c == 3 {
        proof {
            assert(NetworkConfigState::Failed.spec_code() == value as u32);
            lemma_network_config_state_code_injective(NetworkConfigState::Failed);
        }
        NetworkConfigState::Failed
    } else {
        NetworkConfigState::Configured
    }
}

/// The `NetworkSocketKind` whose word is the low 32 bits of `value`, or `TcpStream` when no
/// value has that word.
pub open spec fn network_socket_kind_of(value: u64) -> NetworkSocketKind {
    if (value as u32) < 1 {
        choose|v: NetworkSocketKind| v.spec_code() == value as u32
    } else {
        NetworkSocketKind::TcpStream
    }
}

/// Decodes a `NetworkSocketKind` from its word; unknown words decode to `TcpStream`.
#[verifier::when_used_as_spec(network_socket_kind_of)]
pub fn network_socket_kind_from_word(value: u64) -> (v: NetworkSocketKind)
    ensures
        v == network_socket_kind_of(value),
{
    let c = value as u32;
    if c == 0 {
        proof {
            assert(NetworkSocketKind::TcpStream.spec_code() == value as u32);
            lemma_network_socket_kind_code_injective(NetworkSocketKind::TcpStream);
        }
        NetworkSocketKind::TcpStream
    } else {
        NetworkSocketKind::TcpStream
    }
}

/// The `NetworkSocketState` whose word is the low 32 bits of `value`, or `Closed` when no
/// value has that word.
pub open spec fn network_socket_state_of(value: u64) -> NetworkSocketState {
    if (value as u32) < 5 {
        choose|v: NetworkSocketState| v.spec_code() == value as u32
    } else {
        NetworkSocketState::Closed
    }
}

/// Decodes a `NetworkSocketState` from its word; unknown words decode to `Closed`.
#[verifier::when_used_as_spec(network_socket_state_of)]
pub fn network_socket_state_from_word(value: u64) -> (v: NetworkSocketState)
    ensures
        v == network_socket_state_of(value),
{
    let c = value as u32;
    if c == 0 {
        proof {
            assert(NetworkSocketState::Closed.spec_code() == value as u32);
            lemma_network_socket_state_code_injective(NetworkSocketState::Closed);
        }
        NetworkSocketState::Closed
    } else if c == 1 {
        proof {
            assert(NetworkSocketState::Connecting.spec_code() == value as u32);
            lemma_network_socket_state_code_injective(NetworkSocketState::Connecting);
        }
        NetworkSocketState::Connecting
    } else if c == 2 {
        proof {
            assert(NetworkSocketState::Established.spec_code() == value as u32);
            lemma_network_socket_state_code_injective(NetworkSocketState::Established);
        }
        NetworkSocketState::Established
    } else if c == 3 {
        proof {
            assert(NetworkSocketState::Closing.spec_code() == value as u32);
            lemma_network_socket_state_code_injective(NetworkSocketState::Closing);
        }
        NetworkSocketState::Closing
    } else if c == 4 {
        proof {
            assert(NetworkSocketState::Failed.spec_code() == value as u32);
            lemma_network_socket_state_code_injective(NetworkSocketState::Failed);
        }
        NetworkSocketState::Failed
    } else {
        NetworkSocketState::Closed
    }
}

/// The `NetworkListenPortKind` whose word is the low 32 bits of `value`, or `Unknown` when no
/// value has that word.
pub open spec fn network_listen_port_kind_of(value: u64) -> NetworkListenPortKind {
    if (value as u32) < 4 {
        choose|v: NetworkListenPortKind| v.spec_code() == value as u32
    } else {
        NetworkListenPortKind::Unknown
    }
}

/// Decodes a `NetworkListenPortKind` from its word; unknown words decode to `Unknown`.
#[verifier::when_used_as_spec(network_listen_port_kind_of)]
pub fn network_listen_port_kind_from_word(value: u64) -> (v: NetworkListenPortKind)
    ensures
        v == network_listen_port_kind_of(value),
{
    let c = value as u32;
    if c == 0 {
        proof {
            assert(NetworkListenPortKind::Unknown.spec_code() == value as u32);
            lemma_network_listen_port_kind_code_injective(NetworkListenPortKind::Unknown);
        }
        NetworkListenPortKind::Unknown
    } else if c == 1 {
        proof {
            assert(NetworkListenPortKind::TcpListener.spec_code() == value as u32);
            lemma_network_listen_port_kind_code_injective(NetworkListenPortKind::TcpListener);
        }
        NetworkListenPortKind::TcpListener
    } else if c == 2 {
        proof {
            assert(NetworkListenPortKind::UdpClient.spec_code() == value as u32);
            lemma_network_listen_port_kind_code_injective(NetworkListenPortKind::UdpClient);
        }
        NetworkListenPortKind::UdpClient
    } else if c == 3 {
        proof {
            assert(NetworkListenPortKind::UdpInternal.spec_code() == value as u32);
            lemma_network_listen_port_kind_code_injective(NetworkListenPortKind::UdpInternal);
        }
        NetworkListenPortKind::UdpInternal
    } else {
        NetworkListenPortKind::Unknown
    }
}

/// The `SessionStatus` whose word is the low 32 bits of `value`, or `Busy` when no
/// value has that word.
pub open spec fn session_status_of(value: u64) -> SessionStatus {
    if (value as u32) < 4 {
        choose|v: SessionStatus| v.spec_code() == value as u32
    } else {
        SessionStatus::Busy
    }
}

/// Decodes a `SessionStatus` from its word; unknown words decode to `Busy`.
#[verifier::when_used_as_spec(session_status_of)]
pub fn session_status_from_word(value: u64) -> (v: SessionStatus)
    ensures
        v == session_status_of(value),
{
    let c = value as u32;
    if c == 0 {
        proof {
            assert(SessionStatus::Success.spec_code() == value as u32);
            lemma_session_status_code_injective(SessionStatus::Success);
        }
        SessionStatus::Success
    } else if c == 1 {
        proof {
            assert(SessionStatus::NotFound.spec_code() == value as u32);
            lemma_session_status_code_injective(SessionStatus::NotFound);
        }
        SessionStatus::NotFound
    } else if c == 2 {
        proof {
            assert(SessionStatus::Busy.spec_code() == value as u32);
            lemma_session_status_code_injective(SessionStatus::Busy);
        }
        SessionStatus::Busy
    } else if c == 3 {
        proof {
            assert(SessionStatus::Denied.spec_code() == value as u32);
            lemma_session_status_code_injective(SessionStatus::Denied);
        }
        SessionStatus::Denied
    } else {
        SessionStatus::Busy
    }
}

/// The `SessionInputSource` whose word is the low 32 bits of `value`, or `Detached` when no
/// value has that word.
pub open spec fn session_input_source_of(value: u64) -> SessionInputSource {
    if (value as u32) < 2 {
        choose|v: SessionInputSource| v.spec_code() == value as u32
    } else {
        SessionInputSource::Detached
    }
}

/// Decodes a `SessionInputSource` from its word; unknown words decode to `Detached`.
#[verifier::when_used_as_spec(session_input_source_of)]
pub fn session_input_source_from_word(value: u64) -> (v: SessionInputSource)
    ensures
        v == session_input_source_of(value),
{
    let c = value as u32;
    if c == 0 {
        proof {
            assert(SessionInputSource::Detached.spec_code() == value as u32);
            lemma_session_input_source_code_injective(SessionInputSource::Detached);
        }
        SessionInputSource::Detached
    } else if c == 1 {
        proof {
            assert(SessionInputSource::ServiceControl.spec_code() == value as u32);
            lemma_session_input_source_code_injective(SessionInputSource::ServiceControl);
        }
        SessionInputSource::ServiceControl
    } else {
        SessionInputSource::Detached
    }
}

/// The `PacketInterfaceBackend` whose word is the low 32 bits of `value`, or `Unknown` when no
/// value has that word.
pub open spec fn packet_backend_of(value: u64) -> PacketInterfaceBackend {
    if (value as u32) < 2 {
        choose|v: PacketInterfaceBackend| v.spec_code() == value as u32
    } else {
        PacketInterfaceBackend::Unknown
    }
}

/// Decodes a `PacketInterfaceBackend` from its word; unknown words decode to `Unknown`.
#[verifier::when_used_as_spec(packet_backend_of)]
pub fn packet_backend_from_word(value: u64) -> (v: PacketInterfaceBackend)
    ensures
        v == packet_backend_of(value),
{
    let c = value as u32;
    if c == 0 {
        proof {
            assert(PacketInterfaceBackend::Unknown.spec_code() == value as u32);
            lemma_packet_interface_backend_code_injective(PacketInterfaceBackend::Unknown);
        }
        PacketInterfaceBackend::Unknown
    } else if c == 1 {
        proof {
            assert(PacketInterfaceBackend::VirtioPci.spec_code() == value as u32);
            lemma_packet_interface_backend_code_injective(PacketInterfaceBackend::VirtioPci);
        }
        PacketInterfaceBackend::VirtioPci
    } else {
        PacketInterfaceBackend::Unknown
    }
}

/// The `PacketInterfaceLinkState` whose word is the low 32 bits of `value`, or `Down` when no
/// value has that word.
pub open spec fn packet_link_state_of(value: u64) -> PacketInterfaceLinkState {
    if (value as u32) < 2 {
        choose|v: PacketInterfaceLinkState| v.spec_code() == value as u32
    } else {
        PacketInterfaceLinkState::Down
    }
}

/// Decodes a `PacketInterfaceLinkState` from its word; unknown words decode to `Down`.
#[verifier::when_used_as_spec(packet_link_state_of)]
pub fn packet_link_state_from_word(value: u64) -> (v: PacketInterfaceLinkState)
    ensures
        v == packet_link_state_of(value),
{
    let c = value as u32;
    if c == 0 {
        proof {
            assert(PacketInterfaceLinkState::Down.spec_code() == value as u32);
            lemma_packet_interface_link_state_code_injective(PacketInterfaceLinkState::Down);
        }
        PacketInterfaceLinkState::Down
    } else if c == 1 {
        proof {
            assert(PacketInterfaceLinkState::Up.spec_code() == value as u32);
            lemma_packet_interface_link_state_code_injective(PacketInterfaceLinkState::Up);
        }
        PacketInterfaceLinkState::Up
    } else {
        PacketInterfaceLinkState::Down
    }
}

/// The `ClipboardStatus` whose word is the low 32 bits of `value`, or `Success` when no
/// value has that word.
pub open spec fn clipboard_status_of(value: u64) -> ClipboardStatus {
    if (value as u32) < 3 {
        choose|v: ClipboardStatus| v.spec_code() == value as u32
    } else {
        ClipboardStatus::Success
    }
}

/// Decodes a `ClipboardStatus` from its word; unknown words decode to `Success`.
#[verifier::when_used_as_spec(clipboard_status_of)]
pub fn clipboard_status_from_word(value: u64) -> (v: ClipboardStatus)
    ensures
        v == clipboard_status_of(value),
{
    let c = value as u32;
    if c == 0 {
        proof {
            assert(ClipboardStatus::Success.spec_code() == value as u32);
            lemma_clipboard_status_code_injective(ClipboardStatus::Success);
        }
        ClipboardStatus::Success
    } else if c == 1 {
        proof {
            assert(ClipboardStatus::NotFound.spec_code() == value as u32);
            lemma_clipboard_status_code_injective(ClipboardStatus::NotFound);
        }
        ClipboardStatus::NotFound
    } else if c == 2 {
        proof {
            assert(ClipboardStatus::Denied.spec_code() == value as u32);
            lemma_clipboard_status_code_injective(ClipboardStatus::Denied);
        }
        ClipboardStatus::Denied
    } else {
        ClipboardStatus::Success
    }
}

/// The `SecurityStatus` whose word is the low 32 bits of `value`, or `Success` when no
/// value has that word.
pub open spec fn security_status_of(value: u64) -> SecurityStatus {
    if (value as u32) < 4 {
        choose|v: SecurityStatus| v.spec_code() == value as u32
    } else {
        SecurityStatus::Success
    }
}

/// Decodes a `SecurityStatus` from its word; unknown words decode to `Success`.
#[verifier::when_used_as_spec(security_status_of)]
pub fn security_status_from_word(value: u64) -> (v: SecurityStatus)
    ensures
        v == security_status_of(value),
{
    let c = value as u32;
    if c == 0 {
        proof {
            assert(SecurityStatus::Success.spec_code() == value as u32);
            lemma_security_status_code_injective(SecurityStatus::Success);
        }
        SecurityStatus::Success
    } else if c == 1 {
        proof {
            assert(SecurityStatus::NotFound.spec_code() == value as u32);
            lemma_security_status_code_injective(SecurityStatus::NotFound);
        }
        SecurityStatus::NotFound
    } else if c == 2 {
        proof {
            assert(SecurityStatus::Busy.spec_code() == value as u32);
            lemma_security_status_code_injective(SecurityStatus::Busy);
        }
        SecurityStatus::Busy
    } else if c == 3 {
        proof {
            assert(SecurityStatus::Denied.spec_code() == value as u32);
            lemma_security_status_code_injective(SecurityStatus::Denied);
        }
        SecurityStatus::Denied
    } else {
        SecurityStatus::Success
    }
}

/// The `PermissionPolicyState` whose word is the low 32 bits of `value`, or `DefaultAllow` when no
/// value has that word.
pub open spec fn permission_policy_state_of(value: u64) -> PermissionPolicyState {
    if (value as u32) < 3 {
        choose|v: PermissionPolicyState| v.spec_code() == value as u32
    } else {
        PermissionPolicyState::DefaultAllow
    }
}

/// Decodes a `PermissionPolicyState` from its word; unknown words decode to `DefaultAllow`.
#[verifier::when_used_as_spec(permission_policy_state_of)]
pub fn permission_policy_state_from_word(value: u64) -> (v: PermissionPolicyState)
    ensures
        v == permission_policy_state_of(value),
{
    let c = value as u32;
    if c == 0 {
        proof {
            assert(PermissionPolicyState::DefaultAllow.spec_code() == value as u32);
            lemma_permission_policy_state_code_injective(PermissionPolicyState::DefaultAllow);
        }
        PermissionPolicyState::DefaultAllow
    } else if c == 1 {
        proof {
            assert(PermissionPolicyState::Allowed.spec_code() == value as u32);
            lemma_permission_policy_state_code_injective(PermissionPolicyState::Allowed);
        }
        PermissionPolicyState::Allowed
    } else if c == 2 {
        proof {
            assert(PermissionPolicyState::Blocked.spec_code() == value as u32);
            lemma_permission_policy_state_code_injective(PermissionPolicyState::Blocked);
        }
        PermissionPolicyState::Blocked
    } else {
        PermissionPolicyState::DefaultAllow
    }
}

/// The `ServiceImageId` whose word is the low 32 bits of `value`, or `RootManager` when no
/// value has that word.
pub open spec fn image_id_of(value: u64) -> ServiceImageId {
    if (value as u32) < 27 {
        choose|v: ServiceImageId| v.spec_code() == value as u32
    } else {
        ServiceImageId::RootManager
    }
}

/// Decodes a `ServiceImageId` from its word; unknown words decode to `RootManager`.
#[verifier::when_used_as_spec(image_id_of)]
pub fn image_id_from_word(value: u64) -> (v: ServiceImageId)
    ensures
        v == image_id_of(value),
{
    let c = value as u32;
    if c == 0 {
        proof {
            assert(ServiceImageId::RootManager.spec_code() == value as u32);
            lemma_service_image_id_code_injective(ServiceImageId::RootManager);
        }
        ServiceImageId::RootManager
    } else if c == 1 {
        proof {
            assert(ServiceImageId::StorageService.spec_code() == value as u32);
            lemma_service_image_id_code_injective(ServiceImageId::StorageService);
        }
        ServiceImageId::StorageService
    } else if c == 2 {
        proof {
            assert(ServiceImageId::ConsoleService.spec_code() == value as u32);
            lemma_service_image_id_code_injective(ServiceImageId::ConsoleService);
        }
        ServiceImageId::ConsoleService
    } else if c == 3 {
        proof {
            assert(ServiceImageId::ConfigService.spec_code() == value as u32);
            lemma_service_image_id_code_injective(ServiceImageId::ConfigService);
        }
        ServiceImageId::ConfigService
    } else if c == 4 {
        proof {
            assert(ServiceImageId::LogService.spec_code() == value as u32);
            lemma_service_image_id_code_injective(ServiceImageId::LogService);
        }
        ServiceImageId::LogService
    } else if c == 5 {
        proof {
            assert(ServiceImageId::StatusService.spec_code() == value as u32);
            lemma_service_image_id_code_injective(ServiceImageId::StatusService);
        }
        ServiceImageId::StatusService
    } else if c == 6 {
        proof {
            assert(ServiceImageId::ShellService.spec_code() == value as u32);
            lemma_service_image_id_code_injective(ServiceImageId::ShellService);
        }
        ServiceImageId::ShellService
    } else if c == 7 {
        proof {
            assert(ServiceImageId::SysinfoTool.spec_code() == value as u32);
            lemma_service_image_id_code_injective(ServiceImageId::SysinfoTool);
        }
        ServiceImageId::SysinfoTool
    } else if c == 8 {
        proof {
            assert(ServiceImageId::PackageService.spec_code() == value as u32);
            lemma_service_image_id_code_injective(ServiceImageId::PackageService);
        }
        ServiceImageId::PackageService
    } else if c == 9 {
        proof {
            assert(ServiceImageId::AnnounceService.spec_code() == value as u32);
            lemma_service_image_id_code_injective(ServiceImageId::AnnounceService);
        }
        ServiceImageId::AnnounceService
    } else if c == 10 {
        proof {
            assert(ServiceImageId::NetworkService.spec_code() == value as u32);
            lemma_service_image_id_code_injective(ServiceImageId::NetworkService);
        }
        ServiceImageId::NetworkService
    } else if c == 11 {
        proof {
            assert(ServiceImageId::GraphicsService.spec_code() == value as u32);
            lemma_service_image_id_code_injective(ServiceImageId::GraphicsService);
        }
        ServiceImageId::GraphicsService
    } else if c == 12 {
        proof {
            assert(ServiceImageId::SessionService.spec_code() == value as u32);
            lemma_service_image_id_code_injective(ServiceImageId::SessionService);
        }
        ServiceImageId::SessionService
    } else if c == 13 {
        proof {
            assert(ServiceImageId::DesktopShellService.spec_code() == value as u32);
            lemma_service_image_id_code_injective(ServiceImageId::DesktopShellService);
        }
        ServiceImageId::DesktopShellService
    } else if c == 14 {
        proof {
            assert(ServiceImageId::SettingsApp.spec_code() == value as u32);
            lemma_service_image_id_code_injective(ServiceImageId::SettingsApp);
        }
        ServiceImageId::SettingsApp
    } else if c == 15 {
        proof {
            assert(ServiceImageId::FilesApp.spec_code() == value as u32);
            lemma_service_image_id_code_injective(ServiceImageId::FilesApp);
        }
        ServiceImageId::FilesApp
    } else if c == 16 {
        proof {
            assert(ServiceImageId::MonitorApp.spec_code() == value as u32);
            lemma_service_image_id_code_injective(ServiceImageId::MonitorApp);
        }
        ServiceImageId::MonitorApp
    } else if c == 17 {
        proof {
            assert(ServiceImageId::TerminalService.spec_code() == value as u32);
            lemma_service_image_id_code_injective(ServiceImageId::TerminalService);
        }
        ServiceImageId::TerminalService
    } else if c == 18 {
        proof {
            assert(ServiceImageId::TerminalApp.spec_code() == value as u32);
            lemma_service_image_id_code_injective(ServiceImageId::TerminalApp);
        }
        ServiceImageId::TerminalApp
    } else if c == 19 {
        proof {
            assert(ServiceImageId::AudioService.spec_code() == value as u32);
            lemma_service_image_id_code_injective(ServiceImageId::AudioService);
        }
        ServiceImageId::AudioService
    } else if c == 20 {
        proof {
            assert(ServiceImageId::RuntimeService.spec_code() == value as u32);
            lemma_service_image_id_code_injective(ServiceImageId::RuntimeService);
        }
        ServiceImageId::RuntimeService
    } else if c == 21 {
        proof {
            assert(ServiceImageId::PosixHostTool.spec_code() == value as u32);
            lemma_service_image_id_code_injective(ServiceImageId::PosixHostTool);
        }
        ServiceImageId::PosixHostTool
    } else if c == 22 {
        proof {
            assert(ServiceImageId::DeveloperService.spec_code() == value as u32);
            lemma_service_image_id_code_injective(ServiceImageId::DeveloperService);
        }
        ServiceImageId::DeveloperService
    } else if c == 23 {
        proof {
            assert(ServiceImageId::CrossBuilderTool.spec_code() == value as u32);
            lemma_service_image_id_code_injective(ServiceImageId::CrossBuilderTool);
        }
        ServiceImageId::CrossBuilderTool
    } else if c == 24 {
        proof {
            assert(ServiceImageId::ClipboardService.spec_code() == value as u32);
            lemma_service_image_id_code_injective(ServiceImageId::ClipboardService);
        }
        ServiceImageId::ClipboardService
    } else if c == 25 {
        proof {
            assert(ServiceImageId::SoftwareCenterApp.spec_code() == value as u32);
            lemma_service_image_id_code_injective(ServiceImageId::SoftwareCenterApp);
        }
        ServiceImageId::SoftwareCenterApp
    } else if c == 26 {
        proof {
            assert(ServiceImageId::SecurityService.spec_code() == value as u32);
            lemma_service_image_id_code_injective(ServiceImageId::SecurityService);
        }
        ServiceImageId::SecurityService
    } else {
        ServiceImageId::RootManager
    }
}

/// The `StatusHealth` whose word is the low 32 bits of `value`, or `Unknown` when no
/// value has that word.
pub open spec fn status_health_of(value: u64) -> StatusHealth {
    if (value as u32) < 6 {
        choose|v: StatusHealth| v.spec_code() == value as u32
    } else {
        StatusHealth::Unknown
    }
}

/// Decodes a `StatusHealth` from its word; unknown words decode to `Unknown`.
#[verifier::when_used_as_spec(status_health_of)]
pub fn status_health_from_word(value: u64) -> (v: StatusHealth)
    ensures
        v == status_health_of(value),
{
    let c = value as u32;
    if c == 0 {
        proof {
            assert(StatusHealth::Unknown.spec_code() == value as u32);
            lemma_status_health_code_injective(StatusHealth::Unknown);
        }
        StatusHealth::Unknown
    } else if c == 1 {
        proof {
            assert(StatusHealth::Healthy.spec_code() == value as u32);
            lemma_status_health_code_injective(StatusHealth::Healthy);
        }
        StatusHealth::Healthy
    } else if c == 2 {
        proof {
            assert(StatusHealth::Degraded.spec_code() == value as u32);
            lemma_status_health_code_injective(StatusHealth::Degraded);
        }
        StatusHealth::Degraded
    } else if c == 3 {
        proof {
            assert(StatusHealth::Failing.spec_code() == value as u32);
            lemma_status_health_code_injective(StatusHealth::Failing);
        }
        StatusHealth::Failing
    } else if c == 4 {
        proof {
            assert(StatusHealth::Recovering.spec_code() == value as u32);
            lemma_status_health_code_injective(StatusHealth::Recovering);
        }
        StatusHealth::Recovering
    } else if c == 5 {
        proof {
            assert(StatusHealth::Dormant.spec_code() == value as u32);
            lemma_status_health_code_injective(StatusHealth::Dormant);
        }
        StatusHealth::Dormant
    } else {
        StatusHealth::Unknown
    }
}

/// The `TerminalStatus` whose word is the low 32 bits of `value`, or `Success` when no
/// value has that word.
pub open spec fn terminal_status_of(value: u64) -> TerminalStatus {
    if (value as u32) < 5 {
        choose|v: TerminalStatus| v.spec_code() == value as u32
    } else {
        TerminalStatus::Success
    }
}

/// Decodes a `TerminalStatus` from its word; unknown words decode to `Success`.
#[verifier::when_used_as_spec(terminal_status_of)]
pub fn terminal_status_from_word(value: u64) -> (v: TerminalStatus)
    ensures
        v == terminal_status_of(value),
{
    let c = value as u32;
    if c == 0 {
        proof {
            assert(TerminalStatus::Success.spec_code() == value as u32);
            lemma_terminal_status_code_injective(TerminalStatus::Success);
        }
        TerminalStatus::Success
    } else if c == 1 {
        proof {
            assert(TerminalStatus::NotFound.spec_code() == value as u32);
            lemma_terminal_status_code_injective(TerminalStatus::NotFound);
        }
        TerminalStatus::NotFound
    } else if c == 2 {
        proof {
            assert(TerminalStatus::Busy.spec_code() == value as u32);
            lemma_terminal_status_code_injective(TerminalStatus::Busy);
        }
        TerminalStatus::Busy
    } else if c == 3 {
        proof {
            assert(TerminalStatus::Denied.spec_code() == value as u32);
            lemma_terminal_status_code_injective(TerminalStatus::Denied);
        }
        TerminalStatus::Denied
    } else if c == 4 {
        proof {
            assert(TerminalStatus::Closed.spec_code() == value as u32);
            lemma_terminal_status_code_injective(TerminalStatus::Closed);
        }
        TerminalStatus::Closed
    } else {
        TerminalStatus::Success
    }
}

/// The `ManagerServicePhase` whose word is the low 32 bits of `value`, or `Exited` when no
/// value has that word.
pub open spec fn manager_phase_of(value: u64) -> ManagerServicePhase {
    if (value as u32) < 7 {
        choose|v: ManagerServicePhase| v.spec_code() == value as u32
    } else {
        ManagerServicePhase::Exited
    }
}

/// Decodes a `ManagerServicePhase` from its word; unknown words decode to `Exited`.
#[verifier::when_used_as_spec(manager_phase_of)]
pub fn manager_phase_from_word(value: u64) -> (v: ManagerServicePhase)
    ensures
        v == manager_phase_of(value),
{
    let c = value as u32;
    if c == 0 {
        proof {
            assert(ManagerServicePhase::Dormant.spec_code() == value as u32);
            lemma_manager_service_phase_code_injective(ManagerServicePhase::Dormant);
        }
        ManagerServicePhase::Dormant
    } else if c == 1 {
        proof {
            assert(ManagerServicePhase::WaitingDependencies.spec_code() == value as u32);
            lemma_manager_service_phase_code_injective(ManagerServicePhase::WaitingDependencies);
        }
        ManagerServicePhase::WaitingDependencies
    } else if c == 2 {
        proof {
            assert(ManagerServicePhase::Starting.spec_code() == value as u32);
            lemma_manager_service_phase_code_injective(ManagerServicePhase::Starting);
        }
        ManagerServicePhase::Starting
    } else if c == 3 {
        proof {
            assert(ManagerServicePhase::Ready.spec_code() == value as u32);
            lemma_manager_service_phase_code_injective(ManagerServicePhase::Ready);
        }
        ManagerServicePhase::Ready
    } else if c == 4 {
        proof {
            assert(ManagerServicePhase::Backoff.spec_code() == value as u32);
            lemma_manager_service_phase_code_injective(ManagerServicePhase::Backoff);
        }
        ManagerServicePhase::Backoff
    } else if c == 5 {
        proof {
            assert(ManagerServicePhase::Degraded.spec_code() == value as u32);
            lemma_manager_service_phase_code_injective(ManagerServicePhase::Degraded);
        }
        ManagerServicePhase::Degraded
    } else if c == 6 {
        proof {
            assert(ManagerServicePhase::Exited.spec_code() == value as u32);
            lemma_manager_service_phase_code_injective(ManagerServicePhase::Exited);
        }
        ManagerServicePhase::Exited
    } else {
        ManagerServicePhase::Exited
    }
}

/// The `ManagerStatus` whose word is the low 32 bits of `value`, or `Busy` when no
/// value has that word.
pub open spec fn manager_status_of(value: u64) -> ManagerStatus {
    if (value as u32) < 5 {
        choose|v: ManagerStatus| v.spec_code() == value as u32
    } else {
        ManagerStatus::Busy
    }
}

/// Decodes a `ManagerStatus` from its word; unknown words decode to `Busy`.
#[verifier::when_used_as_spec(manager_status_of)]
pub fn manager_status_from_word(value: u64) -> (v: ManagerStatus)
    ensures
        v == manager_status_of(value),
{
    let c = value as u32;
    if c == 0 {
        proof {
            assert(ManagerStatus::Success.spec_code() == value as u32);
            lemma_manager_status_code_injective(ManagerStatus::Success);
        }
        ManagerStatus::Success
    } else if c == 1 {
        proof {
            assert(ManagerStatus::Denied.spec_code() == value as u32);
            lemma_manager_status_code_injective(ManagerStatus::Denied);
        }
        ManagerStatus::Denied
    } else if c == 2 {
        proof {
            assert(ManagerStatus::NotFound.spec_code() == value as u32);
            lemma_manager_status_code_injective(ManagerStatus::NotFound);
        }
        ManagerStatus::NotFound
    } else if c == 3 {
        proof {
            assert(ManagerStatus::Busy.spec_code() == value as u32);
            lemma_manager_status_code_injective(ManagerStatus::Busy);
        }
        ManagerStatus::Busy
    } else if c == 4 {
        proof {
            assert(ManagerStatus::Failed.spec_code() == value as u32);
            lemma_manager_status_code_injective(ManagerStatus::Failed);
        }
        ManagerStatus::Failed
    } else {
        ManagerStatus::Busy
    }
}

/// The `ManagerStartupMode` whose word is the low 32 bits of `value`, or `Eager` when no
/// value has that word.
pub open spec fn manager_startup_of(value: u64) -> ManagerStartupMode {
    if (value as u32) < 2 {
        choose|v: ManagerStartupMode| v.spec_code() == value as u32
    } else {
        ManagerStartupMode::Eager
    }
}

/// Decodes a `ManagerStartupMode` from its word; unknown words decode to `Eager`.
#[verifier::when_used_as_spec(manager_startup_of)]
pub fn manager_startup_from_word(value: u64) -> (v: ManagerStartupMode)
    ensures
        v == manager_startup_of(value),
{
    let c = value as u32;
    if c == 0 {
        proof {
            assert(ManagerStartupMode::Eager.spec_code() == value as u32);
            lemma_manager_startup_mode_code_injective(ManagerStartupMode::Eager);
        }
        ManagerStartupMode::Eager
    } else if c == 1 {
        proof {
            assert(ManagerStartupMode::OnDemand.spec_code() == value as u32);
            lemma_manager_startup_mode_code_injective(ManagerStartupMode::OnDemand);
        }
        ManagerStartupMode::OnDemand
    } else {
        ManagerStartupMode::Eager
    }
}

/// The `ManagerAvailability` whose word is the low 32 bits of `value`, or `Required` when no
/// value has that word.
pub open spec fn manager_availability_of(value: u64) -> ManagerAvailability {
    if (value as u32) < 2 {
        choose|v: ManagerAvailability| v.spec_code() == value as u32
    } else {
        ManagerAvailability::Required
    }
}

/// Decodes a `ManagerAvailability` from its word; unknown words decode to `Required`.
#[verifier::when_used_as_spec(manager_availability_of)]
pub fn manager_availability_from_word(value: u64) -> (v: ManagerAvailability)
    ensures
        v == manager_availability_of(value),
{
    let c = value as u32;
    if c == 0 {
        proof {
            assert(ManagerAvailability::Required.spec_code() == value as u32);
            lemma_manager_availability_code_injective(ManagerAvailability::Required);
        }
        ManagerAvailability::Required
    } else if c == 1 {
        proof {
            assert(ManagerAvailability::Optional.spec_code() == value as u32);
            lemma_manager_availability_code_injective(ManagerAvailability::Optional);
        }
        ManagerAvailability::Optional
    } else {
        ManagerAvailability::Required
    }
}

/// The `ManagerLookupPolicy` whose word is the low 32 bits of `value`, or `Default` when no
/// value has that word.
pub open spec fn manager_lookup_policy_of(value: u64) -> ManagerLookupPolicy {
    if (value as u32) < 2 {
        choose|v: ManagerLookupPolicy| v.spec_code() == value as u32
    } else {
        ManagerLookupPolicy::Default
    }
}

/// Decodes a `ManagerLookupPolicy` from its word; unknown words decode to `Default`.
#[verifier::when_used_as_spec(manager_lookup_policy_of)]
pub fn manager_lookup_policy_from_word(value: u64) -> (v: ManagerLookupPolicy)
    ensures
        v == manager_lookup_policy_of(value),
{
    let c = value as u32;
    if c == 0 {
        proof {
            assert(ManagerLookupPolicy::Default.spec_code() == value as u32);
            lemma_manager_lookup_policy_code_injective(ManagerLookupPolicy::Default);
        }
        ManagerLookupPolicy::Default
    } else if c == 1 {
        proof {
            assert(ManagerLookupPolicy::Revoked.spec_code() == value as u32);
            lemma_manager_lookup_policy_code_injective(ManagerLookupPolicy::Revoked);
        }
        ManagerLookupPolicy::Revoked
    } else {
        ManagerLookupPolicy::Default
    }
}

/// The `PackageStatus` whose word is the low 32 bits of `value`, or `Busy` when no
/// value has that word.
pub open spec fn package_status_of(value: u64) -> PackageStatus {
    if (value as u32) < 14 {
        choose|v: PackageStatus| v.spec_code() == value as u32
    } else {
        PackageStatus::Busy
    }
}

/// Decodes a `PackageStatus` from its word; unknown words decode to `Busy`.
#[verifier::when_used_as_spec(package_status_of)]
pub fn package_status_from_word(value: u64) -> (v: PackageStatus)
    ensures
        v == package_status_of(value),
{
    let c = value as u32;
    if c == 0 {
        proof {
            assert(PackageStatus::Success.spec_code() == value as u32);
            lemma_package_status_code_injective(PackageStatus::Success);
        }
        PackageStatus::Success
    } else if c == 1 {
        proof {
            assert(PackageStatus::NotFound.spec_code() == value as u32);
            lemma_package_status_code_injective(PackageStatus::NotFound);
        }
        PackageStatus::NotFound
    } else if c == 2 {
        proof {
            assert(PackageStatus::AlreadyInstalled.spec_code() == value as u32);
            lemma_package_status_code_injective(PackageStatus::AlreadyInstalled);
        }
        PackageStatus::AlreadyInstalled
    } else if c == 3 {
        proof {
            assert(PackageStatus::NotInstalled.spec_code() == value as u32);
            lemma_package_status_code_injective(PackageStatus::NotInstalled);
        }
        PackageStatus::NotInstalled
    } else if c == 4 {
        proof {
            assert(PackageStatus::Busy.spec_code() == value as u32);
            lemma_package_status_code_injective(PackageStatus::Busy);
        }
        PackageStatus::Busy
    } else if c == 5 {
        proof {
            assert(PackageStatus::Denied.spec_code() == value as u32);
            lemma_package_status_code_injective(PackageStatus::Denied);
        }
        PackageStatus::Denied
    } else if c == 6 {
        proof {
            assert(PackageStatus::IntegrityFailed.spec_code() == value as u32);
            lemma_package_status_code_injective(PackageStatus::IntegrityFailed);
        }
        PackageStatus::IntegrityFailed
    } else if c == 7 {
        proof {
            assert(PackageStatus::End.spec_code() == value as u32);
            lemma_package_status_code_injective(PackageStatus::End);
        }
        PackageStatus::End
    } else if c == 8 {
        proof {
            assert(PackageStatus::NoChange.spec_code() == value as u32);
            lemma_package_status_code_injective(PackageStatus::NoChange);
        }
        PackageStatus::NoChange
    } else if c == 9 {
        proof {
            assert(PackageStatus::NoRollback.spec_code() == value as u32);
            lemma_package_status_code_injective(PackageStatus::NoRollback);
        }
        PackageStatus::NoRollback
    } else if c == 10 {
        proof {
            assert(PackageStatus::Unsupported.spec_code() == value as u32);
            lemma_package_status_code_injective(PackageStatus::Unsupported);
        }
        PackageStatus::Unsupported
    } else if c == 11 {
        proof {
            assert(PackageStatus::Offline.spec_code() == value as u32);
            lemma_package_status_code_injective(PackageStatus::Offline);
        }
        PackageStatus::Offline
    } else if c == 12 {
        proof {
            assert(PackageStatus::Interrupted.spec_code() == value as u32);
            lemma_package_status_code_injective(PackageStatus::Interrupted);
        }
        PackageStatus::Interrupted
    } else if c == 13 {
        proof {
            assert(PackageStatus::VerificationFailed.spec_code() == value as u32);
            lemma_package_status_code_injective(PackageStatus::VerificationFailed);
        }
        PackageStatus::VerificationFailed
    } else {
        PackageStatus::Busy
    }
}

/// The `DeveloperStatus` whose word is the low 32 bits of `value`, or `Busy` when no
/// value has that word.
pub open spec fn developer_status_of(value: u64) -> DeveloperStatus {
    if (value as u32) < 5 {
        choose|v: DeveloperStatus| v.spec_code() == value as u32
    } else {
        DeveloperStatus::Busy
    }
}

/// Decodes a `DeveloperStatus` from its word; unknown words decode to `Busy`.
#[verifier::when_used_as_spec(developer_status_of)]
pub fn developer_status_from_word(value: u64) -> (v: DeveloperStatus)
    ensures
        v == developer_status_of(value),
{
    let c = value as u32;
    if c == 0 {
        proof {
            assert(DeveloperStatus::Success.spec_code() == value as u32);
            lemma_developer_status_code_injective(DeveloperStatus::Success);
        }
        DeveloperStatus::Success
    } else if c == 1 {
        proof {
            assert(DeveloperStatus::NotFound.spec_code() == value as u32);
            lemma_developer_status_code_injective(DeveloperStatus::NotFound);
        }
        DeveloperStatus::NotFound
    } else if c == 2 {
        proof {
            assert(DeveloperStatus::Busy.spec_code() == value as u32);
            lemma_developer_status_code_injective(DeveloperStatus::Busy);
        }
        DeveloperStatus::Busy
    } else if c == 3 {
        proof {
            assert(DeveloperStatus::Denied.spec_code() == value as u32);
            lemma_developer_status_code_injective(DeveloperStatus::Denied);
        }
        DeveloperStatus::Denied
    } else if c == 4 {
        proof {
            assert(DeveloperStatus::Unsupported.spec_code() == value as u32);
            lemma_developer_status_code_injective(DeveloperStatus::Unsupported);
        }
        DeveloperStatus::Unsupported
    } else {
        DeveloperStatus::Busy
    }
}

/// The `DeveloperTarget` whose word is the low 32 bits of `value`, or `NativeX64` when no
/// value has that word.
pub open spec fn developer_target_of(value: u64) -> DeveloperTarget {
    if (value as u32) < 4 {
        choose|v: DeveloperTarget| v.spec_code() == value as u32
    } else {
        DeveloperTarget::NativeX64
    }
}

/// Decodes a `DeveloperTarget` from its word; unknown words decode to `NativeX64`.
#[verifier::when_used_as_spec(developer_target_of)]
pub fn developer_target_from_word(value: u64) -> (v: DeveloperTarget)
    ensures
        v == developer_target_of(value),
{
    let c = value as u32;
    if c == 0 {
        proof {
            assert(DeveloperTarget::NativeX64.spec_code() == value as u32);
            lemma_developer_target_code_injective(DeveloperTarget::NativeX64);
        }
        DeveloperTarget::NativeX64
    } else if c == 1 {
        proof {
            assert(DeveloperTarget::LinuxX64.spec_code() == value as u32);
            lemma_developer_target_code_injective(DeveloperTarget::LinuxX64);
        }
        DeveloperTarget::LinuxX64
    } else if c == 2 {
        proof {
            assert(DeveloperTarget::WindowsX64.spec_code() == value as u32);
            lemma_developer_target_code_injective(DeveloperTarget::WindowsX64);
        }
        DeveloperTarget::WindowsX64
    } else if c == 3 {
        proof {
            assert(DeveloperTarget::MacosX64.spec_code() == value as u32);
            lemma_developer_target_code_injective(DeveloperTarget::MacosX64);
        }
        DeveloperTarget::MacosX64
    } else {
        DeveloperTarget::NativeX64
    }
}

/// The `DeveloperToolchainState` whose word is the low 32 bits of `value`, or `Installed` when no
/// value has that word.
pub open spec fn developer_toolchain_state_of(value: u64) -> DeveloperToolchainState {
    if (value as u32) < 2 {
        choose|v: DeveloperToolchainState| v.spec_code() == value as u32
    } else {
        DeveloperToolchainState::Installed
    }
}

/// Decodes a `DeveloperToolchainState` from its word; unknown words decode to `Installed`.
#[verifier::when_used_as_spec(developer_toolchain_state_of)]
pub fn developer_toolchain_state_from_word(value: u64) -> (v: DeveloperToolchainState)
    ensures
        v == developer_toolchain_state_of(value),
{
    let c = value as u32;
    if c == 0 {
        proof {
            assert(DeveloperToolchainState::Installed.spec_code() == value as u32);
            lemma_developer_toolchain_state_code_injective(DeveloperToolchainState::Installed);
        }
        DeveloperToolchainState::Installed
    } else if c == 1 {
        proof {
            assert(DeveloperToolchainState::RemoteOnly.spec_code() == value as u32);
            lemma_developer_toolchain_state_code_injective(DeveloperToolchainState::RemoteOnly);
        }
        DeveloperToolchainState::RemoteOnly
    } else {
        DeveloperToolchainState::Installed
    }
}

/// The `DeveloperArtifactFormat` whose word is the low 32 bits of `value`, or `ServiceOsFlat` when no
/// value has that word.
pub open spec fn developer_artifact_format_of(value: u64) -> DeveloperArtifactFormat {
    if (value as u32) < 4 {
        choose|v: DeveloperArtifactFormat| v.spec_code() == value as u32
    } else {
        DeveloperArtifactFormat::ServiceOsFlat
    }
}

/// Decodes a `DeveloperArtifactFormat` from its word; unknown words decode to `ServiceOsFlat`.
#[verifier::when_used_as_spec(developer_artifact_format_of)]
pub fn developer_artifact_format_from_word(value: u64) -> (v: DeveloperArtifactFormat)
    ensures
        v == developer_artifact_format_of(value),
{
    let c = value as u32;
    if c == 0 {
        proof {
            assert(DeveloperArtifactFormat::ServiceOsFlat.spec_code() == value as u32);
            lemma_developer_artifact_format_code_injective(DeveloperArtifactFormat::ServiceOsFlat);
        }
        DeveloperArtifactFormat::ServiceOsFlat
    } else if c == 1 {
        proof {
            assert(DeveloperArtifactFormat::Elf64.spec_code() == value as u32);
            lemma_developer_artifact_format_code_injective(DeveloperArtifactFormat::Elf64);
        }
        DeveloperArtifactFormat::Elf64
    } else if c == 2 {
        proof {
            assert(DeveloperArtifactFormat::Pe32Plus.spec_code() == value as u32);
            lemma_developer_artifact_format_code_injective(DeveloperArtifactFormat::Pe32Plus);
        }
        DeveloperArtifactFormat::Pe32Plus
    } else if c == 3 {
        proof {
            assert(DeveloperArtifactFormat::MachO64.spec_code() == value as u32);
            lemma_developer_artifact_format_code_injective(DeveloperArtifactFormat::MachO64);
        }
        DeveloperArtifactFormat::MachO64
    } else {
        DeveloperArtifactFormat::ServiceOsFlat
    }
}

/// The `DeveloperJobState` whose word is the low 32 bits of `value`, or `Queued` when no
/// value has that word.
pub open spec fn developer_job_state_of(value: u64) -> DeveloperJobState {
    if (value as u32) < 5 {
        choose|v: DeveloperJobState| v.spec_code() == value as u32
    } else {
        DeveloperJobState::Queued
    }
}

/// Decodes a `DeveloperJobState` from its word; unknown words decode to `Queued`.
#[verifier::when_used_as_spec(developer_job_state_of)]
pub fn developer_job_state_from_word(value: u64) -> (v: DeveloperJobState)
    ensures
        v == developer_job_state_of(value),
{
    let c = value as u32;
    if c == 0 {
        proof {
            assert(DeveloperJobState::Queued.spec_code() == value as u32);
            lemma_developer_job_state_code_injective(DeveloperJobState::Queued);
        }
        DeveloperJobState::Queued
    } else if c == 1 {
        proof {
            assert(DeveloperJobState::Running.spec_code() == value as u32);
            lemma_developer_job_state_code_injective(DeveloperJobState::Running);
        }
        DeveloperJobState::Running
    } else if c == 2 {
        proof {
            assert(DeveloperJobState::Succeeded.spec_code() == value as u32);
            lemma_developer_job_state_code_injective(DeveloperJobState::Succeeded);
        }
        DeveloperJobState::Succeeded
    } else if c == 3 {
        proof {
            assert(DeveloperJobState::Failed.spec_code() == value as u32);
            lemma_developer_job_state_code_injective(DeveloperJobState::Failed);
        }
        DeveloperJobState::Failed
    } else if c == 4 {
        proof {
            assert(DeveloperJobState::Unsupported.spec_code() == value as u32);
            lemma_developer_job_state_code_injective(DeveloperJobState::Unsupported);
        }
        DeveloperJobState::Unsupported
    } else {
        DeveloperJobState::Queued
    }
}

/// The `GraphicsStatus` whose word is the low 32 bits of `value`, or `Busy` when no
/// value has that word.
pub open spec fn graphics_status_of(value: u64) -> GraphicsStatus {
    if (value as u32) < 5 {
        choose|v: GraphicsStatus| v.spec_code() == value as u32
    } else {
        GraphicsStatus::Busy
    }
}

/// Decodes a `GraphicsStatus` from its word; unknown words decode to `Busy`.
#[verifier::when_used_as_spec(graphics_status_of)]
pub fn graphics_status_from_word(value: u64) -> (v: GraphicsStatus)
    ensures
        v == graphics_status_of(value),
{
    let c = value as u32;
    if c == 0 {
        proof {
            assert(GraphicsStatus::Success.spec_code() == value as u32);
            lemma_graphics_status_code_injective(GraphicsStatus::Success);
        }
        GraphicsStatus::Success
    } else if c == 1 {
        proof {
            assert(GraphicsStatus::NotFound.spec_code() == value as u32);
            lemma_graphics_status_code_injective(GraphicsStatus::NotFound);
        }
        GraphicsStatus::NotFound
    } else if c == 2 {
        proof {
            assert(GraphicsStatus::Busy.spec_code() == value as u32);
            lemma_graphics_status_code_injective(GraphicsStatus::Busy);
        }
        GraphicsStatus::Busy
    } else if c == 3 {
        proof {
            assert(GraphicsStatus::Denied.spec_code() == value as u32);
            lemma_graphics_status_code_injective(GraphicsStatus::Denied);
        }
        GraphicsStatus::Denied
    } else if c == 4 {
        proof {
            assert(GraphicsStatus::CapacityExceeded.spec_code() == value as u32);
            lemma_graphics_status_code_injective(GraphicsStatus::CapacityExceeded);
        }
        GraphicsStatus::CapacityExceeded
    } else {
        GraphicsStatus::Busy
    }
}

/// The `DesktopStatus` whose word is the low 32 bits of `value`, or `Busy` when no
/// value has that word.
pub open spec fn desktop_status_of(value: u64) -> DesktopStatus {
    if (value as u32) < 4 {
        choose|v: DesktopStatus| v.spec_code() == value as u32
    } else {
        DesktopStatus::Busy
    }
}

/// Decodes a `DesktopStatus` from its word; unknown words decode to `Busy`.
#[verifier::when_used_as_spec(desktop_status_of)]
pub fn desktop_status_from_word(value: u64) -> (v: DesktopStatus)
    ensures
        v == desktop_status_of(value),
{
    let c = value as u32;
    if c == 0 {
        proof {
            assert(DesktopStatus::Success.spec_code() == value as u32);
            lemma_desktop_status_code_injective(DesktopStatus::Success);
        }
        DesktopStatus::Success
    } else if c == 1 {
        proof {
            assert(DesktopStatus::NotFound.spec_code() == value as u32);
            lemma_desktop_status_code_injective(DesktopStatus::NotFound);
        }
        DesktopStatus::NotFound
    } else if c == 2 {
        proof {
            assert(DesktopStatus::Busy.spec_code() == value as u32);
            lemma_desktop_status_code_injective(DesktopStatus::Busy);
        }
        DesktopStatus::Busy
    } else if c == 3 {
        proof {
            assert(DesktopStatus::Denied.spec_code() == value as u32);
            lemma_desktop_status_code_injective(DesktopStatus::Denied);
        }
        DesktopStatus::Denied
    } else {
        DesktopStatus::Busy
    }
}

/// The `DesktopDragMode` whose word is the low 32 bits of `value`, or `Idle` when no
/// value has that word.
pub open spec fn desktop_drag_mode_of(value: u64) -> DesktopDragMode {
    if (value as u32) < 3 {
        choose|v: DesktopDragMode| v.spec_code() == value as u32
    } else {
        DesktopDragMode::Idle
    }
}

/// Decodes a `DesktopDragMode` from its word; unknown words decode to `Idle`.
#[verifier::when_used_as_spec(desktop_drag_mode_of)]
pub fn desktop_drag_mode_from_word(value: u64) -> (v: DesktopDragMode)
    ensures
        v == desktop_drag_mode_of(value),
{
    let c = value as u32;
    if c == 0 {
        proof {
            assert(DesktopDragMode::Idle.spec_code() == value as u32);
            lemma_desktop_drag_mode_code_injective(DesktopDragMode::Idle);
        }
        DesktopDragMode::Idle
    } else if c == 1 {
        proof {
            assert(DesktopDragMode::Move.spec_code() == value as u32);
            lemma_desktop_drag_mode_code_injective(DesktopDragMode::Move);
        }
        DesktopDragMode::Move
    } else if c == 2 {
        proof {
            assert(DesktopDragMode::Resize.spec_code() == value as u32);
            lemma_desktop_drag_mode_code_injective(DesktopDragMode::Resize);
        }
        DesktopDragMode::Resize
    } else {
        DesktopDragMode::Idle
    }
}

/// The `DisplayOutputBackend` whose word is the low 32 bits of `value`, or `Unknown` when no
/// value has that word.
pub open spec fn display_backend_of(value: u64) -> DisplayOutputBackend {
    if (value as u32) < 2 {
        choose|v: DisplayOutputBackend| v.spec_code() == value as u32
    } else {
        DisplayOutputBackend::Unknown
    }
}

/// Decodes a `DisplayOutputBackend` from its word; unknown words decode to `Unknown`.
#[verifier::when_used_as_spec(display_backend_of)]
pub fn display_backend_from_word(value: u64) -> (v: DisplayOutputBackend)
    ensures
        v == display_backend_of(value),
{
    let c = value as u32;
    if c == 0 {
        proof {
            assert(DisplayOutputBackend::Unknown.spec_code() == value as u32);
            lemma_display_output_backend_code_injective(DisplayOutputBackend::Unknown);
        }
        DisplayOutputBackend::Unknown
    } else if c == 1 {
        proof {
            assert(DisplayOutputBackend::BootFramebuffer.spec_code() == value as u32);
            lemma_display_output_backend_code_injective(DisplayOutputBackend::BootFramebuffer);
        }
        DisplayOutputBackend::BootFramebuffer
    } else {
        DisplayOutputBackend::Unknown
    }
}

/// The `DisplayOutputState` whose word is the low 32 bits of `value`, or `Disconnected` when no
/// value has that word.
pub open spec fn display_state_of(value: u64) -> DisplayOutputState {
    if (value as u32) < 2 {
        choose|v: DisplayOutputState| v.spec_code() == value as u32
    } else {
        DisplayOutputState::Disconnected
    }
}

/// Decodes a `DisplayOutputState` from its word; unknown words decode to `Disconnected`.
#[verifier::when_used_as_spec(display_state_of)]
pub fn display_state_from_word(value: u64) -> (v: DisplayOutputState)
    ensures
        v == display_state_of(value),
{
    let c = value as u32;
    if c == 0 {
        proof {
            assert(DisplayOutputState::Disconnected.spec_code() == value as u32);
            lemma_display_output_state_code_injective(DisplayOutputState::Disconnected);
        }
        DisplayOutputState::Disconnected
    } else if c == 1 {
        proof {
            assert(DisplayOutputState::Connected.spec_code() == value as u32);
            lemma_display_output_state_code_injective(DisplayOutputState::Connected);
        }
        DisplayOutputState::Connected
    } else {
        DisplayOutputState::Disconnected
    }
}

/// The `DisplayPixelFormat` whose word is the low 32 bits of `value`, or `Unknown` when no
/// value has that word.
pub open spec fn display_pixel_format_of(value: u64) -> DisplayPixelFormat {
    if (value as u32) < 3 {
        choose|v: DisplayPixelFormat| v.spec_code() == value as u32
    } else {
        DisplayPixelFormat::Unknown
    }
}

/// Decodes a `DisplayPixelFormat` from its word; unknown words decode to `Unknown`.
#[verifier::when_used_as_spec(display_pixel_format_of)]
pub fn display_pixel_format_from_word(value: u64) -> (v: DisplayPixelFormat)
    ensures
        v == display_pixel_format_of(value),
{
    let c = value as u32;
    if c == 0 {
        proof {
            assert(DisplayPixelFormat::Unknown.spec_code() == value as u32);
            lemma_display_pixel_format_code_injective(DisplayPixelFormat::Unknown);
        }
        DisplayPixelFormat::Unknown
    } else if c == 1 {
        proof {
            assert(DisplayPixelFormat::Xrgb8888.spec_code() == value as u32);
            lemma_display_pixel_format_code_injective(DisplayPixelFormat::Xrgb8888);
        }
        DisplayPixelFormat::Xrgb8888
    } else if c == 2 {
        proof {
            assert(DisplayPixelFormat::Bgrx8888.spec_code() == value as u32);
            lemma_display_pixel_format_code_injective(DisplayPixelFormat::Bgrx8888);
        }
        DisplayPixelFormat::Bgrx8888
    } else {
        DisplayPixelFormat::Unknown
    }
}

/// The `PackageRepositoryTrustMode` whose word is the low 32 bits of `value`, or `Unsigned` when no
/// value has that word.
pub open spec fn package_trust_mode_of(value: u64) -> PackageRepositoryTrustMode {
    if (value as u32) < 3 {
        choose|v: PackageRepositoryTrustMode| v.spec_code() == value as u32
    } else {
        PackageRepositoryTrustMode::Unsigned
    }
}

/// Decodes a `PackageRepositoryTrustMode` from its word; unknown words decode to `Unsigned`.
#[verifier::when_used_as_spec(package_trust_mode_of)]
pub fn package_trust_mode_from_word(value: u64) -> (v: PackageRepositoryTrustMode)
    ensures
        v == package_trust_mode_of(value),
{
    let c = value as u32;
    if c == 0 {
        proof {
            assert(PackageRepositoryTrustMode::Unsigned.spec_code() == value as u32);
            lemma_package_repository_trust_mode_code_injective(PackageRepositoryTrustMode::Unsigned);
        }
        PackageRepositoryTrustMode::Unsigned
    } else if c == 1 {
        proof {
            assert(PackageRepositoryTrustMode::Boot.spec_code() == value as u32);
            lemma_package_repository_trust_mode_code_injective(PackageRepositoryTrustMode::Boot);
        }
        PackageRepositoryTrustMode::Boot
    } else if c == 2 {
        proof {
            assert(PackageRepositoryTrustMode::PinnedDigest.spec_code() == value as u32);
            lemma_package_repository_trust_mode_code_injective(PackageRepositoryTrustMode::PinnedDigest);
        }
        PackageRepositoryTrustMode::PinnedDigest
    } else {
        PackageRepositoryTrustMode::Unsigned
    }
}

/// The `PackageRepositorySyncState` whose word is the low 32 bits of `value`, or `Idle` when no
/// value has that word.
pub open spec fn package_repo_sync_state_of(value: u64) -> PackageRepositorySyncState {
    if (value as u32) < 4 {
        choose|v: PackageRepositorySyncState| v.spec_code() == value as u32
    } else {
        PackageRepositorySyncState::Idle
    }
}

/// Decodes a `PackageRepositorySyncState` from its word; unknown words decode to `Idle`.
#[verifier::when_used_as_spec(package_repo_sync_state_of)]
pub fn package_repo_sync_state_from_word(value: u64) -> (v: PackageRepositorySyncState)
    ensures
        v == package_repo_sync_state_of(value),
{
    let c = value as u32;
    if c == 0 {
        proof {
            assert(PackageRepositorySyncState::Idle.spec_code() == value as u32);
            lemma_package_repository_sync_state_code_injective(PackageRepositorySyncState::Idle);
        }
        PackageRepositorySyncState::Idle
    } else if c == 1 {
        proof {
            assert(PackageRepositorySyncState::Ready.spec_code() == value as u32);
            lemma_package_repository_sync_state_code_injective(PackageRepositorySyncState::Ready);
        }
        PackageRepositorySyncState::Ready
    } else if c == 2 {
        proof {
            assert(PackageRepositorySyncState::Offline.spec_code() == value as u32);
            lemma_package_repository_sync_state_code_injective(PackageRepositorySyncState::Offline);
        }
        PackageRepositorySyncState::Offline
    } else if c == 3 {
        proof {
            assert(PackageRepositorySyncState::Failed.spec_code() == value as u32);
            lemma_package_repository_sync_state_code_injective(PackageRepositorySyncState::Failed);
        }
        PackageRepositorySyncState::Failed
    } else {
        PackageRepositorySyncState::Idle
    }
}

/// The `PackageTrustState` whose word is the low 32 bits of `value`, or `Unverified` when no
/// value has that word.
pub open spec fn package_trust_state_of(value: u64) -> PackageTrustState {
    if (value as u32) < 4 {
        choose|v: PackageTrustState| v.spec_code() == value as u32
    } else {
        PackageTrustState::Unverified
    }
}

/// Decodes a `PackageTrustState` from its word; unknown words decode to `Unverified`.
#[verifier::when_used_as_spec(package_trust_state_of)]
pub fn package_trust_state_from_word(value: u64) -> (v: PackageTrustState)
    ensures
        v == package_trust_state_of(value),
{
    let c = value as u32;
    if c == 0 {
        proof {
            assert(PackageTrustState::Unverified.spec_code() == value as u32);
            lemma_package_trust_state_code_injective(PackageTrustState::Unverified);
        }
        PackageTrustState::Unverified
    } else if c == 1 {
        proof {
            assert(PackageTrustState::BootTrusted.spec_code() == value as u32);
            lemma_package_trust_state_code_injective(PackageTrustState::BootTrusted);
        }
        PackageTrustState::BootTrusted
    } else if c == 2 {
        proof {
            assert(PackageTrustState::DigestPinned.spec_code() == value as u32);
            lemma_package_trust_state_code_injective(PackageTrustState::DigestPinned);
        }
        PackageTrustState::DigestPinned
    } else if c == 3 {
        proof {
            assert(PackageTrustState::VerificationFailed.spec_code() == value as u32);
            lemma_package_trust_state_code_injective(PackageTrustState::VerificationFailed);
        }
        PackageTrustState::VerificationFailed
    } else {
        PackageTrustState::Unverified
    }
}

/// The `PackageChannel` whose word is the low 32 bits of `value`, or `Stable` when no
/// value has that word.
pub open spec fn package_channel_of(value: u64) -> PackageChannel {
    if (value as u32) < 3 {
        choose|v: PackageChannel| v.spec_code() == value as u32
    } else {
        PackageChannel::Stable
    }
}

/// Decodes a `PackageChannel` from its word; unknown words decode to `Stable`.
#[verifier::when_used_as_spec(package_channel_of)]
pub fn package_channel_from_word(value: u64) -> (v: PackageChannel)
    ensures
        v == package_channel_of(value),
{
    let c = value as u32;
    if c == 0 {
        proof {
            assert(PackageChannel::Stable.spec_code() == value as u32);
            lemma_package_channel_code_injective(PackageChannel::Stable);
        }
        PackageChannel::Stable
    } else if c == 1 {
        proof {
            assert(PackageChannel::Beta.spec_code() == value as u32);
            lemma_package_channel_code_injective(PackageChannel::Beta);
        }
        PackageChannel::Beta
    } else if c == 2 {
        proof {
            assert(PackageChannel::Canary.spec_code() == value as u32);
            lemma_package_channel_code_injective(PackageChannel::Canary);
        }
        PackageChannel::Canary
    } else {
        PackageChannel::Stable
    }
}

/// The `PackageRing` whose word is the low 32 bits of `value`, or `Production` when no
/// value has that word.
pub open spec fn package_ring_of(value: u64) -> PackageRing {
    if (value as u32) < 3 {
        choose|v: PackageRing| v.spec_code() == value as u32
    } else {
        PackageRing::Production
    }
}

/// Decodes a `PackageRing` from its word; unknown words decode to `Production`.
#[verifier::when_used_as_spec(package_ring_of)]
pub fn package_ring_from_word(value: u64) -> (v: PackageRing)
    ensures
        v == package_ring_of(value),
{
    let c = value as u32;
    if c == 0 {
        proof {
            assert(PackageRing::Production.spec_code() == value as u32);
            lemma_package_ring_code_injective(PackageRing::Production);
        }
        PackageRing::Production
    } else if c == 1 {
        proof {
            assert(PackageRing::Preview.spec_code() == value as u32);
            lemma_package_ring_code_injective(PackageRing::Preview);
        }
        PackageRing::Preview
    } else if c == 2 {
        proof {
            assert(PackageRing::Testing.spec_code() == value as u32);
            lemma_package_ring_code_injective(PackageRing::Testing);
        }
        PackageRing::Testing
    } else {
        PackageRing::Production
    }
}

/// The error a `NetworkStatus` other than success stands for.
pub open spec fn spec_network_status_error(status: NetworkStatus) -> Error {
    match status {
        NetworkStatus::Success => Error::InvalidArgument,
        NetworkStatus::NotFound => Error::NotFound,
        NetworkStatus::Busy => Error::Busy,
        NetworkStatus::InvalidTarget => Error::NotFound,
        NetworkStatus::Timeout => Error::QueueEmpty,
        NetworkStatus::End => Error::NotFound,
        NetworkStatus::Unsupported => Error::Unsupported,
        NetworkStatus::Denied => Error::PermissionDenied,
        NetworkStatus::CapacityExceeded => Error::CapacityExceeded,
        NetworkStatus::Closed => Error::NotFound,
    }
}

/// The error a `NetworkStatus` other than success stands for.
#[verifier::when_used_as_spec(spec_network_status_error)]
pub fn network_status_error(status: NetworkStatus) -> (e: Error)
    ensures
        e == spec_network_status_error(status),
{
    match status {
        NetworkStatus::Success => Error::InvalidArgument,
        NetworkStatus::NotFound => Error::NotFound,
        NetworkStatus::Busy => Error::Busy,
        NetworkStatus::InvalidTarget => Error::NotFound,
        NetworkStatus::Timeout => Error::QueueEmpty,
        NetworkStatus::End => Error::NotFound,
        NetworkStatus::Unsupported => Error::Unsupported,
        NetworkStatus::Denied => Error::PermissionDenied,
        NetworkStatus::CapacityExceeded => Error::CapacityExceeded,
        NetworkStatus::Closed => Error::NotFound,
    }
}

/// The error a `AudioStatus` other than success stands for.
pub open spec fn spec_audio_status_error(status: AudioStatus) -> Error {
    match status {
        AudioStatus::Success => Error::InvalidArgument,
        AudioStatus::NotFound => Error::NotFound,
        AudioStatus::Busy => Error::Busy,
        AudioStatus::Unsupported => Error::Unsupported,
        AudioStatus::Denied => Error::PermissionDenied,
        AudioStatus::CapacityExceeded => Error::CapacityExceeded,
        AudioStatus::Closed => Error::NotFound,
    }
}

/// The error a `AudioStatus` other than success stands for.
#[verifier::when_used_as_spec(spec_audio_status_error)]
pub fn audio_status_error(status: AudioStatus) -> (e: Error)
    ensures
        e == spec_audio_status_error(status),
{
    match status {
        AudioStatus::Success => Error::InvalidArgument,
        AudioStatus::NotFound => Error::NotFound,
        AudioStatus::Busy => Error::Busy,
        AudioStatus::Unsupported => Error::Unsupported,
        AudioStatus::Denied => Error::PermissionDenied,
        AudioStatus::CapacityExceeded => Error::CapacityExceeded,
        AudioStatus::Closed => Error::NotFound,
    }
}

/// The error a `RuntimeStatus` other than success stands for.
pub open spec fn spec_runtime_status_error(status: RuntimeStatus) -> Error {
    match status {
        RuntimeStatus::Success => Error::InvalidArgument,
        RuntimeStatus::NotFound => Error::NotFound,
        RuntimeStatus::Busy => Error::Busy,
        RuntimeStatus::Denied => Error::PermissionDenied,
        RuntimeStatus::InvalidPath => Error::InvalidArgument,
        RuntimeStatus::Unsupported => Error::Unsupported,
        RuntimeStatus::Closed => Error::NotFound,
        RuntimeStatus::PendingApproval => Error::Busy,
    }
}

/// The error a `RuntimeStatus` other than success stands for.
#[verifier::when_used_as_spec(spec_runtime_status_error)]
pub fn runtime_status_error(status: RuntimeStatus) -> (e: Error)
    ensures
        e == spec_runtime_status_error(status),
{
    match status {
        RuntimeStatus::Success => Error::InvalidArgument,
        RuntimeStatus::NotFound => Error::NotFound,
        RuntimeStatus::Busy => Error::Busy,
        RuntimeStatus::Denied => Error::PermissionDenied,
        RuntimeStatus::InvalidPath => Error::InvalidArgument,
        RuntimeStatus::Unsupported => Error::Unsupported,
        RuntimeStatus::Closed => Error::NotFound,
        RuntimeStatus::PendingApproval => Error::Busy,
    }
}

/// The error a `SessionStatus` other than success stands for.
pub open spec fn spec_session_status_error(status: SessionStatus) -> Error {
    match status {
        SessionStatus::Success => Error::InvalidArgument,
        SessionStatus::NotFound => Error::NotFound,
        SessionStatus::Busy => Error::Busy,
        SessionStatus::Denied => Error::PermissionDenied,
    }
}

/// The error a `SessionStatus` other than success stands for.
#[verifier::when_used_as_spec(spec_session_status_error)]
pub fn session_status_error(status: SessionStatus) -> (e: Error)
    ensures
        e == spec_session_status_error(status),
{
    match status {
        SessionStatus::Success => Error::InvalidArgument,
        SessionStatus::NotFound => Error::NotFound,
        SessionStatus::Busy => Error::Busy,
        SessionStatus::Denied => Error::PermissionDenied,
    }
}

/// The error a `ClipboardStatus` other than success stands for.
pub open spec fn spec_clipboard_status_error(status: ClipboardStatus) -> Error {
    match status {
        ClipboardStatus::Success => Error::InvalidArgument,
        ClipboardStatus::NotFound => Error::NotFound,
        ClipboardStatus::Denied => Error::PermissionDenied,
    }
}

/// The error a `ClipboardStatus` other than success stands for.
#[verifier::when_used_as_spec(spec_clipboard_status_error)]
pub fn clipboard_status_error(status: ClipboardStatus) -> (e: Error)
    ensures
        e == spec_clipboard_status_error(status),
{
    match status {
        ClipboardStatus::Success => Error::InvalidArgument,
        ClipboardStatus::NotFound => Error::NotFound,
        ClipboardStatus::Denied => Error::PermissionDenied,
    }
}

/// The error a `TerminalStatus` other than success stands for.
pub open spec fn spec_terminal_status_error(status: TerminalStatus) -> Error {
    match status {
        TerminalStatus::Success => Error::InvalidArgument,
        TerminalStatus::NotFound => Error::NotFound,
        TerminalStatus::Busy => Error::Busy,
        TerminalStatus::Denied => Error::PermissionDenied,
        TerminalStatus::Closed => Error::NotFound,
    }
}

/// The error a `TerminalStatus` other than success stands for.
#[verifier::when_used_as_spec(spec_terminal_status_error)]
pub fn terminal_status_error(status: TerminalStatus) -> (e: Error)
    ensures
        e == spec_terminal_status_error(status),
{
    match status {
        TerminalStatus::Success => Error::InvalidArgument,
        TerminalStatus::NotFound => Error::NotFound,
        TerminalStatus::Busy => Error::Busy,
        TerminalStatus::Denied => Error::PermissionDenied,
        TerminalStatus::Closed => Error::NotFound,
    }
}

/// The error a `PackageStatus` other than success stands for.
pub open spec fn spec_package_status_error(status: PackageStatus) -> Error {
    match status {
        PackageStatus::Success => Error::InvalidArgument,
        PackageStatus::NotFound => Error::NotFound,
        PackageStatus::AlreadyInstalled => Error::Busy,
        PackageStatus::NotInstalled => Error::InvalidArgument,
        PackageStatus::Busy => Error::Busy,
        PackageStatus::Denied => Error::PermissionDenied,
        PackageStatus::IntegrityFailed => Error::InvalidCall,
        PackageStatus::End => Error::InvalidArgument,
        PackageStatus::NoChange => Error::Busy,
        PackageStatus::NoRollback => Error::InvalidArgument,
        PackageStatus::Unsupported => Error::InvalidArgument,
        PackageStatus::Offline => Error::Busy,
        PackageStatus::Interrupted => Error::Busy,
        PackageStatus::VerificationFailed => Error::InvalidCall,
    }
}

/// The error a `PackageStatus` other than success stands for.
#[verifier::when_used_as_spec(spec_package_status_error)]
pub fn package_status_error(status: PackageStatus) -> (e: Error)
    ensures
        e == spec_package_status_error(status),
{
    match status {
        PackageStatus::Success => Error::InvalidArgument,
        PackageStatus::NotFound => Error::NotFound,
        PackageStatus::AlreadyInstalled => Error::Busy,
        PackageStatus::NotInstalled => Error::InvalidArgument,
        PackageStatus::Busy => Error::Busy,
        PackageStatus::Denied => Error::PermissionDenied,
        PackageStatus::IntegrityFailed => Error::InvalidCall,
        PackageStatus::End => Error::InvalidArgument,
        PackageStatus::NoChange => Error::Busy,
        PackageStatus::NoRollback => Error::InvalidArgument,
        PackageStatus::Unsupported => Error::InvalidArgument,
        PackageStatus::Offline => Error::Busy,
        PackageStatus::Interrupted => Error::Busy,
        PackageStatus::VerificationFailed => Error::InvalidCall,
    }
}

/// The error a `DeveloperStatus` other than success stands for.
pub open spec fn spec_developer_status_error(status: DeveloperStatus) -> Error {
    match status {
        DeveloperStatus::Success => Error::InvalidArgument,
        DeveloperStatus::NotFound => Error::NotFound,
        DeveloperStatus::Busy => Error::Busy,
        DeveloperStatus::Denied => Error::PermissionDenied,
        DeveloperStatus::Unsupported => Error::Unsupported,
    }
}

/// The error a `DeveloperStatus` other than success stands for.
#[verifier::when_used_as_spec(spec_developer_status_error)]
pub fn developer_status_error(status: DeveloperStatus) -> (e: Error)
    ensures
        e == spec_developer_status_error(status),
{
    match status {
        DeveloperStatus::Success => Error::InvalidArgument,
        DeveloperStatus::NotFound => Error::NotFound,
        DeveloperStatus::Busy => Error::Busy,
        DeveloperStatus::Denied => Error::PermissionDenied,
        DeveloperStatus::Unsupported => Error::Unsupported,
    }
}

/// The error a `GraphicsStatus` other than success stands for.
pub open spec fn spec_graphics_status_error(status: GraphicsStatus) -> Error {
    match status {
        GraphicsStatus::Success => Error::InvalidArgument,
        GraphicsStatus::NotFound => Error::NotFound,
        GraphicsStatus::Busy => Error::Busy,
        GraphicsStatus::Denied => Error::PermissionDenied,
        GraphicsStatus::CapacityExceeded => Error::CapacityExceeded,
    }
}

/// The error a `GraphicsStatus` other than success stands for.
#[verifier::when_used_as_spec(spec_graphics_status_error)]
pub fn graphics_status_error(status: GraphicsStatus) -> (e: Error)
    ensures
        e == spec_graphics_status_error(status),
{
    match status {
        GraphicsStatus::Success => Error::InvalidArgument,
        GraphicsStatus::NotFound => Error::NotFound,
        GraphicsStatus::Busy => Error::Busy,
        GraphicsStatus::Denied => Error::PermissionDenied,
        GraphicsStatus::CapacityExceeded => Error::CapacityExceeded,
    }
}

/// The error a `DesktopStatus` other than success stands for.
pub open spec fn spec_desktop_status_error(status: DesktopStatus) -> Error {
    match status {
        DesktopStatus::Success => Error::InvalidArgument,
        DesktopStatus::NotFound => Error::NotFound,
        DesktopStatus::Busy => Error::Busy,
        DesktopStatus::Denied => Error::PermissionDenied,
    }
}

/// The error a `DesktopStatus` other than success stands for.
#[verifier::when_used_as_spec(spec_desktop_status_error)]
pub fn desktop_status_error(status: DesktopStatus) -> (e: Error)
    ensures
        e == spec_desktop_status_error(status),
{
    match status {
        DesktopStatus::Success => Error::InvalidArgument,
        DesktopStatus::NotFound => Error::NotFound,
        DesktopStatus::Busy => Error::Busy,
        DesktopStatus::Denied => Error::PermissionDenied,
    }
}


/// The desktop application a word names, if any.
pub open spec fn desktop_app_id_of(value: u64) -> Option<DesktopAppId> {
    if (value as u32) < 5 {
        Some(choose|v: DesktopAppId| v.spec_code() == value as u32)
    } else {
        None
    }
}

/// Decodes a desktop application id; `None` for a word that names none.
pub fn desktop_app_id_from_word(value: u64) -> (v: Option<DesktopAppId>)
    ensures
        v == desktop_app_id_of(value),
{
    let c = value as u32;
    if c < 5 {
        let id = if c == 0 {
            DesktopAppId::Settings
        } else if c == 1 {
            DesktopAppId::Files
        } else if c == 2 {
            DesktopAppId::Monitor
        } else if c == 3 {
            DesktopAppId::Terminal
        } else {
            DesktopAppId::SoftwareCenter
        };
        proof {
            assert(id.spec_code() == value as u32);
            lemma_desktop_app_id_code_injective(id);
        }
        Some(id)
    } else {
        None
    }
}

/// The two signed halves of a word: low 32 bits first.
pub open spec fn i32_pair_of(value: u64) -> (i32, i32) {
    ((value as u32) as i32, ((value >> 32) as u32) as i32)
}

/// Splits a word into its two signed halves, low 32 bits first.
pub fn unpack_i32_pair(value: u64) -> (p: (i32, i32))
    ensures
        p == i32_pair_of(value),
{
    (value as u32 as i32, (value >> 32) as u32 as i32)
}

/// Splits a word into its two unsigned halves, low 32 bits first.
pub fn unpack_u32_pair(value: u64) -> (p: (u32, u32))
    ensures
        p == (value as u32, (value >> 32) as u32),
{
    (value as u32, (value >> 32) as u32)
}


/// Every word below 65 is the code of some `LogEvent`.
proof fn lemma_log_event_codes_onto(c: u32)
    requires
        c < 65,
    ensures
        exists|e: LogEvent| #[trigger] e.spec_code() == c,
{
    if c == 0 {
        assert(LogEvent::LookupGranted.spec_code() == c);
    } else if c == 1 {
        assert(LogEvent::ServiceStarted.spec_code() == c);
    } else if c == 2 {
        assert(LogEvent::ServiceReady.spec_code() == c);
    } else if c == 3 {
        assert(LogEvent::ServiceFailed.spec_code() == c);
    } else if c == 4 {
        assert(LogEvent::ServiceRestarting.spec_code() == c);
    } else if c == 5 {
        assert(LogEvent::ConfigLoaded.spec_code() == c);
    } else if c == 6 {
        assert(LogEvent::ConfigRead.spec_code() == c);
    } else if c == 7 {
        assert(LogEvent::ConsoleWrite.spec_code() == c);
    } else if c == 8 {
        assert(LogEvent::StatusStarted.spec_code() == c);
    } else if c == 9 {
        assert(LogEvent::StatusHeartbeat.spec_code() == c);
    } else if c == 10 {
        assert(LogEvent::StorageMounted.spec_code() == c);
    } else if c == 11 {
        assert(LogEvent::ManifestLoaded.spec_code() == c);
    } else if c == 12 {
        assert(LogEvent::ResourceOpened.spec_code() == c);
    } else if c == 13 {
        assert(LogEvent::SessionOpened.spec_code() == c);
    } else if c == 14 {
        assert(LogEvent::ShellCommand.spec_code() == c);
    } else if c == 15 {
        assert(LogEvent::ToolLaunched.spec_code() == c);
    } else if c == 16 {
        assert(LogEvent::PackageCatalogLoaded.spec_code() == c);
    } else if c == 17 {
        assert(LogEvent::PackageInstalled.spec_code() == c);
    } else if c == 18 {
        assert(LogEvent::PackageUpdated.spec_code() == c);
    } else if c == 19 {
        assert(LogEvent::PackageRemoved.spec_code() == c);
    } else if c == 20 {
        assert(LogEvent::PackageRolledBack.spec_code() == c);
    } else if c == 21 {
        assert(LogEvent::PackageActivationFailed.spec_code() == c);
    } else if c == 22 {
        assert(LogEvent::NetworkInterfaceReady.spec_code() == c);
    } else if c == 23 {
        assert(LogEvent::NetworkAddressConfigured.spec_code() == c);
    } else if c == 24 {
        assert(LogEvent::NetworkResolveCompleted.spec_code() == c);
    } else if c == 25 {
        assert(LogEvent::NetworkProbeCompleted.spec_code() == c);
    } else if c == 26 {
        assert(LogEvent::NetworkLinkChanged.spec_code() == c);
    } else if c == 27 {
        assert(LogEvent::DisplayOutputReady.spec_code() == c);
    } else if c == 28 {
        assert(LogEvent::SurfaceCreated.spec_code() == c);
    } else if c == 29 {
        assert(LogEvent::SurfaceUpdated.spec_code() == c);
    } else if c == 30 {
        assert(LogEvent::CompositorPresented.spec_code() == c);
    } else if c == 31 {
        assert(LogEvent::SessionReady.spec_code() == c);
    } else if c == 32 {
        assert(LogEvent::SessionFocusChanged.spec_code() == c);
    } else if c == 33 {
        assert(LogEvent::DesktopReady.spec_code() == c);
    } else if c == 34 {
        assert(LogEvent::DesktopAppLaunched.spec_code() == c);
    } else if c == 35 {
        assert(LogEvent::DesktopAppExited.spec_code() == c);
    } else if c == 36 {
        assert(LogEvent::DesktopFocusChanged.spec_code() == c);
    } else if c == 37 {
        assert(LogEvent::AppRendered.spec_code() == c);
    } else if c == 38 {
        assert(LogEvent::InputSourceReady.spec_code() == c);
    } else if c == 39 {
        assert(LogEvent::InputKeyDelivered.spec_code() == c);
    } else if c == 40 {
        assert(LogEvent::NetworkLeaseChanged.spec_code() == c);
    } else if c == 41 {
        assert(LogEvent::NetworkSocketOpened.spec_code() == c);
    } else if c == 42 {
        assert(LogEvent::NetworkSocketClosed.spec_code() == c);
    } else if c == 43 {
        assert(LogEvent::TerminalSessionOpened.spec_code() == c);
    } else if c == 44 {
        assert(LogEvent::TerminalSessionClosed.spec_code() == c);
    } else if c == 45 {
        assert(LogEvent::AudioEndpointReady.spec_code() == c);
    } else if c == 46 {
        assert(LogEvent::AudioStreamOpened.spec_code() == c);
    } else if c == 47 {
        assert(LogEvent::AudioStreamStarted.spec_code() == c);
    } else if c == 48 {
        assert(LogEvent::AudioStreamStopped.spec_code() == c);
    } else if c == 49 {
        assert(LogEvent::AudioStreamClosed.spec_code() == c);
    } else if c == 50 {
        assert(LogEvent::RuntimeEnvironmentCreated.spec_code() == c);
    } else if c == 51 {
        assert(LogEvent::RuntimeEnvironmentDestroyed.spec_code() == c);
    } else if c == 52 {
        assert(LogEvent::RuntimeLaunchStarted.spec_code() == c);
    } else if c == 53 {
        assert(LogEvent::RuntimeLaunchExited.spec_code() == c);
    } else if c == 54 {
        assert(LogEvent::RuntimeMappedRead.spec_code() == c);
    } else if c == 55 {
        assert(LogEvent::DeveloperCatalogLoaded.spec_code() == c);
    } else if c == 56 {
        assert(LogEvent::DeveloperBuildStarted.spec_code() == c);
    } else if c == 57 {
        assert(LogEvent::DeveloperBuildFinished.spec_code() == c);
    } else if c == 58 {
        assert(LogEvent::DeveloperBuildFailed.spec_code() == c);
    } else if c == 59 {
        assert(LogEvent::DeveloperArtifactOpened.spec_code() == c);
    } else if c == 60 {
        assert(LogEvent::SecurityPolicyChanged.spec_code() == c);
    } else if c == 61 {
        assert(LogEvent::SecurityLaunchDenied.spec_code() == c);
    } else if c == 62 {
        assert(LogEvent::RuntimeApprovalPending.spec_code() == c);
    } else if c == 63 {
        assert(LogEvent::RuntimeApprovalChanged.spec_code() == c);
    } else if c == 64 {
        assert(LogEvent::KernelTrap.spec_code() == c);
    }
}

/// Decoding an event word: a word whose low 32 bits are the code of an event
/// decodes to that event, only the low 32 bits count, and a word that is the
/// code of no event decodes to `LookupGranted`.
pub proof fn lemma_event_from_word(w: u64)
    ensures
        forall|e: LogEvent| #[trigger] e.spec_code() == w as u32 ==> event_of(w) == e,
        event_of(w) == event_of((w as u32) as u64),
        (forall|e: LogEvent| #[trigger] e.spec_code() != w as u32) ==> event_of(w) == LogEvent::LookupGranted,
{
    let c = w as u32;
    assert(((w as u32) as u64) as u32 == w as u32) by (bit_vector);
    assert forall|e: LogEvent| #[trigger] e.spec_code() == c implies event_of(w) == e by {
        lemma_log_event_code_injective(e);
    }
    if c < 65 {
        lemma_log_event_codes_onto(c);
    }
}

} // verus!
