//! Which container runtime the machine offers. Looking for the runtimes'
//! programs and sockets is left to the caller, who hands the findings here.

use crate::text::{from_chars, from_utf8_lossy_text, spec_trim, to_chars, trim, utf8_lossy};
use bollard::Docker;
use vstd::prelude::*;

verus! {

#[verifier::external_type_specification]
#[verifier::external_body]
pub struct ExDocker(bollard::Docker);

#[derive(Debug, Clone, Copy, PartialEq, Eq, Structural)]
pub enum RuntimeType {
    Docker,
    Podman,
    NoRuntime,
}

/// The socket of the Docker daemon.
pub const DOCKER_SOCKET: &'static str = "/var/run/docker.sock";

/// The socket of the Podman service.
pub const PODMAN_SOCKET: &'static str = "/run/user/0/podman/podman.sock";

/// What was found of one runtime: whether its `version` command succeeded,
/// what it printed, and whether its socket exists. A runtime whose program
/// is missing, or whose command could not be run, has no probe.
#[derive(Debug)]
pub struct RuntimeProbe {
    pub succeeded: bool,
    pub stdout: Vec<u8>,
    pub socket_available: bool,
}

/// The version a runtime reported: its output read leniently as UTF-8,
/// without surrounding white space.
pub open spec fn spec_version_text(stdout: Seq<u8>) -> Seq<char> {
    spec_trim(utf8_lossy(stdout))
}

/// `Docker::connect_with_local_defaults`, `None` on failure. The client
/// depends on the environment, so nothing is promised of it.
#[verifier::external_body]
fn docker_connect() -> Option<Docker> {
    Docker::connect_with_local_defaults().ok()
}

/// The runtime the agent uses.
pub struct RuntimeDetector {
    pub runtime: RuntimeType,
    pub version: Option<String>,
    pub available: bool,
    docker_client: Option<Docker>,
}

/// What is known of a detector.
pub struct DetectorView {
    pub runtime: RuntimeType,
    pub version: Option<Seq<char>>,
    pub available: bool,
    pub has_docker_client: bool,
}

impl View for RuntimeDetector {
    type V = DetectorView;

    closed spec fn view(&self) -> DetectorView {
        DetectorView {
            runtime: self.runtime,
            version: match self.version {
                Some(v) => Some(v@),
                None => None,
            },
            available: self.available,
            has_docker_client: self.docker_client is Some,
        }
    }
}

fn version_text(stdout: &[u8]) -> (s: String)
    ensures
        s@ == spec_version_text(stdout@),
{
    let text = from_utf8_lossy_text(stdout);
    let chars = to_chars(text.as_str());
    let kept = trim(chars.as_slice());
    from_chars(kept.as_slice())
}

impl RuntimeDetector {
    /// The runtime chosen from what was found: Docker when its version
    /// command succeeded, else Podman when its did, else none. A runtime is
    /// available when its socket exists; a Docker client is made only then.
    pub fn from_probes(docker: Option<RuntimeProbe>, podman: Option<RuntimeProbe>) -> (d: Self)
        ensures
            docker is Some && docker->Some_0.succeeded ==> d@.runtime == RuntimeType::Docker && d@.version == Some(
                spec_version_text(docker->Some_0.stdout@),
            ) && d@.available == docker->Some_0.socket_available,
            !(docker is Some && docker->Some_0.succeeded) && podman is Some && podman->Some_0.succeeded ==> d@.runtime
                == RuntimeType::Podman && d@.version == Some(spec_version_text(podman->Some_0.stdout@))
                && d@.available == podman->Some_0.socket_available && !d@.has_docker_client,
            !(docker is Some && docker->Some_0.succeeded) && !(podman is Some && podman->Some_0.succeeded) ==> d@.runtime
                == RuntimeType::NoRuntime && d@.version is None && !d@.available && !d@.has_docker_client,
            d@.has_docker_client ==> d@.runtime == RuntimeType::Docker && d@.available,
    {
        match docker {
            Some(p) if p.succeeded => {
                let client = if p.socket_available { docker_connect() } else { None };
                return RuntimeDetector {
                    runtime: RuntimeType::Docker,
                    version: Some(version_text(p.stdout.as_slice())),
                    available: p.socket_available,
                    docker_client: client,
                };
            },
            _ => {},
        }
        match podman {
            Some(p) if p.succeeded => RuntimeDetector {
                runtime: RuntimeType::Podman,
                version: Some(version_text(p.stdout.as_slice())),
                available: p.socket_available,
                docker_client: None,
            },
            _ => RuntimeDetector { runtime: RuntimeType::NoRuntime, version: None, available: false, docker_client: None },
        }
    }

    /// The Docker client, when Docker is the runtime and its socket exists.
    pub fn docker(&self) -> (r: Option<&Docker>)
        ensures
            r is Some == self@.has_docker_client,
    {
        self.docker_client.as_ref()
    }

    pub fn is_docker(&self) -> (b: bool)
        ensures
            b == (self@.runtime == RuntimeType::Docker),
    {
        self.runtime == RuntimeType::Docker
    }

    pub fn is_podman(&self) -> (b: bool)
        ensures
            b == (self@.runtime == RuntimeType::Podman),
    {
        self.runtime == RuntimeType::Podman
    }

    /// The runtime's name: `docker`, `podman` or `none`.
    pub fn runtime_name(&self) -> (s: &'static str)
        ensures
            s@ == match self@.runtime {
                RuntimeType::Docker => "docker"@,
                RuntimeType::Podman => "podman"@,
                RuntimeType::NoRuntime => "none"@,
            },
    {
        match self.runtime {
            RuntimeType::Docker => "docker",
            RuntimeType::Podman => "podman",
            RuntimeType::NoRuntime => "none",
        }
    }
}

} // verus!
