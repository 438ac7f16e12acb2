//! What is asked of the provisioning service: an application namespace for
//! each user, and a machine for each job.
//!
//! The service itself is reached from outside this crate. Here its
//! requests are built, so that what is sent is decided in one place.

use vstd::prelude::*;
use vstd::string::*;
use crate::ids::Uuid;
use crate::models::{Image, ImageVersion, ImageVersionView, ImageView};

verus! {

/// The organisation under which application namespaces are created.
pub open spec fn organization() -> Seq<char> {
    "peter-mertz"@
}

/// The region in which machines are started.
pub open spec fn region() -> Seq<char> {
    "ord"@
}

/// The protocol of a machine's one service.
pub open spec fn service_protocol() -> Seq<char> {
    "tcp"@
}

/// The handler of that service's one port.
pub open spec fn port_handler() -> Seq<char> {
    "http"@
}

/// The number of CPUs of a machine.
pub const MACHINE_CPUS: u32 = 4;

/// The memory of a machine, in megabytes.
pub const MACHINE_MEMORY_MB: u32 = 16384;

/// The port on which the image listens inside the machine.
pub const INTERNAL_PORT: u16 = 8888;

/// The port under which the service is reached from outside.
pub const EXTERNAL_PORT: u16 = 8080;

/// How long the provisioning service is waited for, in seconds. A request
/// that takes longer counts as failed.
pub const PROVISIONING_TIMEOUT_SECONDS: u64 = 30;

/// A request for an application namespace.
#[derive(Debug)]
pub struct AppRequest {
    pub app_name: String,
    pub org_slug: String,
}

pub struct AppRequestView {
    pub app_name: Seq<char>,
    pub org_slug: Seq<char>,
}

impl View for AppRequest {
    type V = AppRequestView;

    open spec fn view(&self) -> AppRequestView {
        AppRequestView { app_name: self.app_name@, org_slug: self.org_slug@ }
    }
}

impl Clone for AppRequest {
    fn clone(&self) -> (copy: Self)
        ensures
            copy == *self,
    {
        AppRequest { app_name: self.app_name.clone(), org_slug: self.org_slug.clone() }
    }
}

/// A request for a machine. It has one service with one port, which
/// starts and stops on demand.
#[derive(Debug)]
pub struct MachineRequest {
    pub app_id: String,
    pub region: String,
    pub image: String,
    pub cpu_kind: String,
    pub gpu_kind: String,
    pub cpus: u32,
    pub memory_mb: u32,
    pub autostart: bool,
    pub autostop: bool,
    pub min_machines_running: u32,
    pub protocol: String,
    pub internal_port: u16,
    pub external_port: u16,
    pub handler: String,
    pub force_https: bool,
}

pub struct MachineRequestView {
    pub app_id: Seq<char>,
    pub region: Seq<char>,
    pub image: Seq<char>,
    pub cpu_kind: Seq<char>,
    pub gpu_kind: Seq<char>,
    pub cpus: u32,
    pub memory_mb: u32,
    pub autostart: bool,
    pub autostop: bool,
    pub min_machines_running: u32,
    pub protocol: Seq<char>,
    pub internal_port: u16,
    pub external_port: u16,
    pub handler: Seq<char>,
    pub force_https: bool,
}

impl View for MachineRequest {
    type V = MachineRequestView;

    open spec fn view(&self) -> MachineRequestView {
        MachineRequestView {
            app_id: self.app_id@,
            region: self.region@,
            image: self.image@,
            cpu_kind: self.cpu_kind@,
            gpu_kind: self.gpu_kind@,
            cpus: self.cpus,
            memory_mb: self.memory_mb,
            autostart: self.autostart,
            autostop: self.autostop,
            min_machines_running: self.min_machines_running,
            protocol: self.protocol@,
            internal_port: self.internal_port,
            external_port: self.external_port,
            handler: self.handler@,
            force_https: self.force_https,
        }
    }
}

impl Clone for MachineRequest {
    fn clone(&self) -> (copy: Self)
        ensures
            copy == *self,
    {
        MachineRequest {
            app_id: self.app_id.clone(),
            region: self.region.clone(),
            image: self.image.clone(),
            cpu_kind: self.cpu_kind.clone(),
            gpu_kind: self.gpu_kind.clone(),
            cpus: self.cpus,
            memory_mb: self.memory_mb,
            autostart: self.autostart,
            autostop: self.autostop,
            min_machines_running: self.min_machines_running,
            protocol: self.protocol.clone(),
            internal_port: self.internal_port,
            external_port: self.external_port,
            handler: self.handler.clone(),
            force_https: self.force_https,
        }
    }
}

/// The reference under which the service pulls an image version: the
/// image's location, a colon, and the version's number.
pub open spec fn image_reference(image_url: Seq<char>, version_number: Seq<char>) -> Seq<char> {
    image_url + ":"@ + version_number
}

/// The namespace request for a user: the namespace is named by the
/// user's identifier.
pub open spec fn app_request_for(user_id: Uuid) -> AppRequestView {
    AppRequestView { app_name: user_id.text(), org_slug: organization() }
}

/// The machine request for a job: the machine runs in the user's
/// namespace, on the CPU and GPU kinds asked for, from the given image
/// version.
pub open spec fn machine_request_for(
    user_id: Uuid,
    cpu_kind: Seq<char>,
    gpu_kind: Seq<char>,
    image: ImageView,
    version: ImageVersionView,
) -> MachineRequestView {
    MachineRequestView {
        app_id: user_id.text(),
        region: region(),
        image: image_reference(image.image_url, version.version_number),
        cpu_kind,
        gpu_kind,
        cpus: MACHINE_CPUS,
        memory_mb: MACHINE_MEMORY_MB,
        autostart: true,
        autostop: true,
        min_machines_running: 0,
        protocol: service_protocol(),
        internal_port: INTERNAL_PORT,
        external_port: EXTERNAL_PORT,
        handler: port_handler(),
        force_https: false,
    }
}

/// Builds the reference under which an image version is pulled.
pub fn image_reference_of(image: &Image, version: &ImageVersion) -> (reference: String)
    ensures
        reference@ == image_reference(image@.image_url, version@.version_number),
{
    image.image_url.clone().concat(":").concat(version.version_number.as_str())
}

/// Builds the namespace request for a user.
pub fn create_app_request(user_id: Uuid) -> (request: AppRequest)
    ensures
        request@ == app_request_for(user_id),
{
    AppRequest { app_name: user_id.to_text(), org_slug: String::from_str("peter-mertz") }
}

/// Builds the machine request for a job of `user_id` on an image version.
pub fn create_machine_request(
    user_id: Uuid,
    cpu_kind: &str,
    gpu_kind: &str,
    image: &Image,
    version: &ImageVersion,
) -> (request: MachineRequest)
    ensures
        request@ == machine_request_for(user_id, cpu_kind@, gpu_kind@, image@, version@),
{
    MachineRequest {
        app_id: user_id.to_text(),
        region: String::from_str("ord"),
        image: image_reference_of(image, version),
        cpu_kind: String::from_str(cpu_kind),
        gpu_kind: String::from_str(gpu_kind),
        cpus: MACHINE_CPUS,
        memory_mb: MACHINE_MEMORY_MB,
        autostart: true,
        autostop: true,
        min_machines_running: 0,
        protocol: String::from_str("tcp"),
        internal_port: INTERNAL_PORT,
        external_port: EXTERNAL_PORT,
        handler: String::from_str("http"),
        force_https: false,
    }
}

/// The views of a sequence of namespace requests, in order.
pub open spec fn app_request_views(requests: Seq<AppRequest>) -> Seq<AppRequestView> {
    requests.map_values(|request: AppRequest| request@)
}

/// The views of a sequence of machine requests, in order.
pub open spec fn machine_request_views(requests: Seq<MachineRequest>) -> Seq<MachineRequestView> {
    requests.map_values(|request: MachineRequest| request@)
}

/// What a stand-in for the provisioning service holds.
pub struct ProvisionerView {
    /// Whether requests succeed.
    pub reachable: bool,
    /// The namespace requests received, oldest first.
    pub apps: Seq<AppRequestView>,
    /// The machine requests received, oldest first.
    pub machines: Seq<MachineRequestView>,
}

impl ProvisionerView {
    /// The service after it received a namespace request.
    pub open spec fn asked_for_app(self, app: AppRequestView) -> ProvisionerView {
        ProvisionerView { apps: self.apps.push(app), ..self }
    }

    /// The service after it received a machine request.
    pub open spec fn asked_for_machine(self, machine: MachineRequestView) -> ProvisionerView {
        ProvisionerView { machines: self.machines.push(machine), ..self }
    }
}

/// A stand-in for the provisioning service. It keeps every request it
/// receives, and answers each with success or with failure as it was
/// told to. A request that it fails has reached it all the same: what is
/// asked of the service cannot be taken back.
pub struct Provisioner {
    reachable: bool,
    apps: Vec<AppRequest>,
    machines: Vec<MachineRequest>,
}

impl View for Provisioner {
    type V = ProvisionerView;

    closed spec fn view(&self) -> ProvisionerView {
        ProvisionerView {
            reachable: self.reachable,
            apps: app_request_views(self.apps@),
            machines: machine_request_views(self.machines@),
        }
    }
}

impl Provisioner {
    /// A service that has received nothing and succeeds.
    pub fn new() -> (service: Provisioner)
        ensures
            service@ == (ProvisionerView { reachable: true, apps: Seq::empty(), machines: Seq::empty() }),
    {
        let service = Provisioner { reachable: true, apps: Vec::new(), machines: Vec::new() };
        assert(service@.apps =~= Seq::<AppRequestView>::empty());
        assert(service@.machines =~= Seq::<MachineRequestView>::empty());
        service
    }

    /// Makes the service succeed or fail from now on.
    pub fn set_reachable(&mut self, reachable: bool)
        ensures
            final(self)@ == (ProvisionerView { reachable, ..old(self)@ }),
    {
        self.reachable = reachable;
    }

    /// Receives a namespace request and says whether it succeeded.
    pub fn create_app(&mut self, app: AppRequest) -> (created: bool)
        ensures
            created == old(self)@.reachable,
            final(self)@ == old(self)@.asked_for_app(app@),
    {
        self.apps.push(app);
        assert(self@.apps =~= old(self)@.apps.push(app@));
        self.reachable
    }

    /// Receives a machine request and says whether it succeeded.
    pub fn create_machine(&mut self, machine: MachineRequest) -> (created: bool)
        ensures
            created == old(self)@.reachable,
            final(self)@ == old(self)@.asked_for_machine(machine@),
    {
        self.machines.push(machine);
        assert(self@.machines =~= old(self)@.machines.push(machine@));
        self.reachable
    }

    /// The number of machine requests received.
    pub fn machines_requested(&self) -> (count: usize)
        ensures
            count == self@.machines.len(),
    {
        self.machines.len()
    }

    /// The number of namespace requests received.
    pub fn apps_requested(&self) -> (count: usize)
        ensures
            count == self@.apps.len(),
    {
        self.apps.len()
    }

    /// The machine request received at the given place, oldest first.
    pub fn machine_request(&self, index: usize) -> (request: Option<MachineRequest>)
        ensures
            match request {
                Some(request) => index < self@.machines.len() && request@
                    == self@.machines[index as int],
                None => index >= self@.machines.len(),
            },
    {
        if index < self.machines.len() {
            Some(self.machines[index].clone())
        } else {
            None
        }
    }

    /// The namespace request received at the given place, oldest first.
    pub fn app_request(&self, index: usize) -> (request: Option<AppRequest>)
        ensures
            match request {
                Some(request) => index < self@.apps.len() && request@ == self@.apps[index as int],
                None => index >= self@.apps.len(),
            },
    {
        if index < self.apps.len() {
            Some(self.apps[index].clone())
        } else {
            None
        }
    }
}

} // verus!
