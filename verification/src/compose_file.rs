//! The configuration-document model: plain data structures whose
//! string-bearing fields are [`RawOr`] containers, so that variable
//! references survive a parse → transform → serialize round trip
//! untouched.  Reading and writing the YAML form of these structures is
//! plumbing around the library, not part of it.

use vstd::prelude::*;

use crate::aliased_name::AliasedName;
use crate::context::Context;
use crate::network_mode::NetworkMode;
use crate::raw_or::RawOr;

verus! {

/// Information on how to build a Docker image.
#[derive(Debug, Clone, PartialEq, Eq)]
pub struct Build {
    /// The source directory or repository to use for this build.
    pub context: Context,
}

impl Build {
    /// A build rooted at the given context.
    pub fn new(context: Context) -> (r: Build)
        ensures
            r.context == context,
    {
        Build { context }
    }
}

/// Where to find a secret that is mapped into a container.
#[derive(Debug, Clone, PartialEq, Eq)]
pub struct Secret {
    /// The file the secret is read from.
    pub file: Option<String>,
    /// True when the secret was created outside of the orchestration
    /// tool.
    pub external: Option<bool>,
    /// The kind of secret store backing this secret.
    pub kind: Option<String>,
    /// The length of the secret, as text.
    pub length: Option<String>,
    /// Labels attached to this secret, as key/value pairs.
    pub labels: Vec<(String, RawOr<String>)>,
}

impl Default for Secret {
    /// A secret with no fields set.
    fn default() -> (r: Secret)
        ensures
            r.file is None,
            r.external is None,
            r.kind is None,
            r.length is None,
            r.labels@ == Seq::<(String, RawOr<String>)>::empty(),
    {
        Secret { file: None, external: None, kind: None, length: None, labels: Vec::new() }
    }
}

/// A service managed by the orchestration tool.  Every string-bearing
/// field is wrapped in [`RawOr`] so that a variable reference written in
/// the document survives untouched until an explicit resolution pass.
#[derive(Debug, Clone, PartialEq, Eq)]
pub struct Service {
    /// How to build an image for this service.
    pub build: Option<Build>,
    /// Capability names to grant to this container.
    pub cap_add: Vec<RawOr<String>>,
    /// Capability names to revoke from this container.
    pub cap_drop: Vec<RawOr<String>>,
    /// The name of an optional parent cgroup.
    pub cgroup_parent: Option<RawOr<String>>,
    /// An optional (global, non-scalable) container name.
    pub container_name: Option<RawOr<String>>,
    /// Devices to map into this container.
    pub devices: Vec<RawOr<AliasedName>>,
    /// Other containers to start first.
    pub depends_on: Vec<RawOr<String>>,
    /// DNS servers.
    pub dns: Vec<RawOr<String>>,
    /// Domains to search for hostnames.
    pub dns_search: Vec<RawOr<String>>,
    /// Locations to mount temporary file systems.
    pub tmpfs: Vec<RawOr<String>>,
    /// Environment files used to supply variables to the container.
    pub env_files: Vec<RawOr<String>>,
    /// Environment variables and values to supply to the container.
    pub environment: Vec<(String, String)>,
    /// Ports exposed to containers that link to this one.
    pub expose: Vec<RawOr<String>>,
    /// Links to containers outside this document.
    pub external_links: Vec<RawOr<AliasedName>>,
    /// The name of the image to build or pull for this container.
    pub image: Option<RawOr<String>>,
    /// Labels attached to this container, as key/value pairs.
    pub labels: Vec<(String, String)>,
    /// Links to other services in this document.
    pub links: Vec<RawOr<AliasedName>>,
    /// The networking mode to use.
    pub network_mode: Option<RawOr<NetworkMode>>,
    /// Security options for AppArmor or SELinux.
    pub security_opt: Vec<RawOr<String>>,
    /// The Unix signal sent to stop this container.
    pub stop_signal: Option<RawOr<String>>,
    /// The volume driver for volumes with no explicit host mapping.
    pub volume_driver: Option<RawOr<String>>,
    /// The relative number of CPU shares to give to this container.
    pub cpu_shares: Option<u32>,
    /// The CFS CPU quota limit.
    pub cpu_quota: Option<u32>,
    /// The domain name to use for this container.
    pub domainname: Option<RawOr<String>>,
    /// The hostname to use for this container.
    pub hostname: Option<RawOr<String>>,
    /// The MAC address of this container's network interface.
    pub mac_address: Option<RawOr<String>>,
    /// Whether to run the container with extended privileges.
    pub privileged: bool,
    /// Whether STDIN is left open when running the container.
    pub stdin_open: bool,
    /// Whether a TTY is allocated for the container.
    pub tty: bool,
    /// The user under which to execute the container's command.
    pub user: Option<RawOr<String>>,
    /// The working directory to use for this container.
    pub working_dir: Option<RawOr<String>>,
}

impl Service {
    /// A service with no fields set.
    pub fn new() -> (r: Service)
        ensures
            r.build is None,
            r.cap_add@ == Seq::<RawOr<String>>::empty(),
            r.cap_drop@ == Seq::<RawOr<String>>::empty(),
            r.cgroup_parent is None,
            r.container_name is None,
            r.devices@ == Seq::<RawOr<AliasedName>>::empty(),
            r.depends_on@ == Seq::<RawOr<String>>::empty(),
            r.dns@ == Seq::<RawOr<String>>::empty(),
            r.dns_search@ == Seq::<RawOr<String>>::empty(),
            r.tmpfs@ == Seq::<RawOr<String>>::empty(),
            r.env_files@ == Seq::<RawOr<String>>::empty(),
            r.environment@ == Seq::<(String, String)>::empty(),
            r.expose@ == Seq::<RawOr<String>>::empty(),
            r.external_links@ == Seq::<RawOr<AliasedName>>::empty(),
            r.image is None,
            r.labels@ == Seq::<(String, String)>::empty(),
            r.links@ == Seq::<RawOr<AliasedName>>::empty(),
            r.network_mode is None,
            r.security_opt@ == Seq::<RawOr<String>>::empty(),
            r.stop_signal is None,
            r.volume_driver is None,
            r.cpu_shares is None,
            r.cpu_quota is None,
            r.domainname is None,
            r.hostname is None,
            r.mac_address is None,
            !r.privileged,
            !r.stdin_open,
            !r.tty,
            r.user is None,
            r.working_dir is None,
    {
        Service {
            build: None,
            cap_add: Vec::new(),
            cap_drop: Vec::new(),
            cgroup_parent: None,
            container_name: None,
            devices: Vec::new(),
            depends_on: Vec::new(),
            dns: Vec::new(),
            dns_search: Vec::new(),
            tmpfs: Vec::new(),
            env_files: Vec::new(),
            environment: Vec::new(),
            expose: Vec::new(),
            external_links: Vec::new(),
            image: None,
            labels: Vec::new(),
            links: Vec::new(),
            network_mode: None,
            security_opt: Vec::new(),
            stop_signal: None,
            volume_driver: None,
            cpu_shares: None,
            cpu_quota: None,
            domainname: None,
            hostname: None,
            mac_address: None,
            privileged: false,
            stdin_open: false,
            tty: false,
            user: None,
            working_dir: None,
        }
    }
}

/// A whole configuration document: the services that make up an
/// application, keyed by name.
#[derive(Debug, Clone, PartialEq, Eq)]
pub struct File {
    /// The individual services, as name/service pairs.
    pub services: Vec<(String, Service)>,
}

impl File {
    /// A document with no services.
    pub fn new() -> (r: File)
        ensures
            r.services@ == Seq::<(String, Service)>::empty(),
    {
        File { services: Vec::new() }
    }
}

} // verus!
