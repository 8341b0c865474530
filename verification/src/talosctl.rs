//! What `talosctl` tells about a node: the records drawn from its YAML
//! output, and the command lines that ask for them.

use crate::slicing::{split_on, split_text, trim_text, trimmed};
use crate::text::{contains, starts_with, text_contains, text_starts_with};
use crate::yaml::{
    bool_in, bool_of, document_texts, get_in, member, member_of, numeral_of, read_document,
    read_documents, readable_documents, text_in, text_list_in, text_list_of, text_of,
    unsigned_in, unsigned_of, yaml_reading, YamlNode, YamlTree,
};
use vstd::prelude::*;
use vstd::string::*;

verus! {

/// Errors of the node-control side; each variant holds a text.
#[derive(Debug, Clone)]
pub enum TalosError {
    /// `talosctl` could not be run.
    Io(String),
    /// `talosctl` ran and failed, or its output could not be read.
    Connection(String),
    /// The named context is not in the configuration.
    ContextNotFound(String),
    /// The named context has no endpoint.
    NoEndpoints(String),
}

/// What a `TalosError` holds, every text taken as its characters.
pub enum TalosErrorView {
    Io(Seq<char>),
    Connection(Seq<char>),
    ContextNotFound(Seq<char>),
    NoEndpoints(Seq<char>),
}

impl View for TalosError {
    type V = TalosErrorView;

    open spec fn view(&self) -> TalosErrorView {
        match self {
            TalosError::Io(detail) => TalosErrorView::Io(detail@),
            TalosError::Connection(detail) => TalosErrorView::Connection(detail@),
            TalosError::ContextNotFound(detail) => TalosErrorView::ContextNotFound(detail@),
            TalosError::NoEndpoints(detail) => TalosErrorView::NoEndpoints(detail@),
        }
    }
}

/// Volume encryption status from a VolumeStatus resource.
#[derive(Debug, Clone)]
pub struct VolumeStatus {
    /// Volume ID, such as `STATE` or `EPHEMERAL`.
    pub id: String,
    /// Encryption provider type.
    pub encryption_provider: Option<String>,
    /// Volume phase.
    pub phase: String,
    /// Pretty size.
    pub size: String,
    /// Filesystem type.
    pub filesystem: Option<String>,
    /// Mount location.
    pub mount_location: Option<String>,
}

/// Disk information from a Disks resource.
#[derive(Debug, Clone)]
pub struct DiskInfo {
    /// Disk ID, such as `sda` or `nvme0n1`.
    pub id: String,
    /// Device path, such as `/dev/sda`.
    pub dev_path: String,
    /// Size in bytes.
    pub size: u64,
    /// Human-readable size, such as `500 GB`.
    pub size_pretty: String,
    /// Disk model.
    pub model: Option<String>,
    /// Disk serial number.
    pub serial: Option<String>,
    /// Transport type, such as `sata`, `nvme`, `virtio` or `usb`.
    pub transport: Option<String>,
    /// Whether the disk is rotational.
    pub rotational: bool,
    /// Whether the disk is read-only.
    pub readonly: bool,
    /// Whether the disk is a CD-ROM.
    pub cdrom: bool,
    /// World Wide ID.
    pub wwid: Option<String>,
    /// Bus path.
    pub bus_path: Option<String>,
}

/// Machine config info from a MachineConfig resource.
#[derive(Debug, Clone)]
pub struct MachineConfigInfo {
    /// Config version.
    pub version: String,
    /// Machine type.
    pub machine_type: Option<String>,
}

/// Discovery member from a Members resource.
#[derive(Debug, Clone)]
pub struct DiscoveryMember {
    /// Member ID.
    pub id: String,
    /// Member addresses.
    pub addresses: Vec<String>,
    /// Hostname.
    pub hostname: String,
    /// Machine type (`controlplane`, `worker`).
    pub machine_type: String,
    /// Operating system.
    pub operating_system: String,
}

/// Address status from an AddressStatus resource.
#[derive(Debug, Clone)]
pub struct AddressStatus {
    /// Address ID.
    pub id: String,
    /// Link name.
    pub link_name: String,
    /// Address with CIDR.
    pub address: String,
    /// Address family (`inet`, `inet6`).
    pub family: String,
    /// Address scope.
    pub scope: String,
    /// Flags.
    pub flags: Vec<String>,
}

/// Version info returned in insecure mode.
#[derive(Debug, Clone)]
pub struct InsecureVersionInfo {
    /// Talos version tag, such as `v1.12.1`.
    pub tag: String,
    /// Whether the node is in maintenance mode.
    pub maintenance_mode: bool,
}

/// Result of generating Talos configuration.
#[derive(Debug, Clone)]
pub struct GenConfigResult {
    /// Path to the generated controlplane.yaml.
    pub controlplane_path: String,
    /// Path to the generated worker.yaml.
    pub worker_path: String,
    /// Path to the generated talosconfig.
    pub talosconfig_path: String,
    /// Output directory.
    pub output_dir: String,
}

/// Result of applying configuration in insecure mode.
#[derive(Debug, Clone)]
pub struct InsecureApplyResult {
    /// Whether the apply was successful.
    pub success: bool,
    /// Output message.
    pub message: String,
}


/// What a `VolumeStatus` holds, every text taken as its characters.
pub struct VolumeStatusView {
    pub id: Seq<char>,
    pub encryption_provider: Option<Seq<char>>,
    pub phase: Seq<char>,
    pub size: Seq<char>,
    pub filesystem: Option<Seq<char>>,
    pub mount_location: Option<Seq<char>>,
}

impl View for VolumeStatus {
    type V = VolumeStatusView;

    open spec fn view(&self) -> VolumeStatusView {
        VolumeStatusView {
            id: self.id@,
            encryption_provider: self.encryption_provider.deep_view(),
            phase: self.phase@,
            size: self.size@,
            filesystem: self.filesystem.deep_view(),
            mount_location: self.mount_location.deep_view(),
        }
    }
}

impl DeepView for VolumeStatus {
    type V = VolumeStatusView;

    open spec fn deep_view(&self) -> VolumeStatusView {
        self@
    }
}

/// What a `DiskInfo` holds, every text taken as its characters.
pub struct DiskInfoView {
    pub id: Seq<char>,
    pub dev_path: Seq<char>,
    pub size: u64,
    pub size_pretty: Seq<char>,
    pub model: Option<Seq<char>>,
    pub serial: Option<Seq<char>>,
    pub transport: Option<Seq<char>>,
    pub rotational: bool,
    pub readonly: bool,
    pub cdrom: bool,
    pub wwid: Option<Seq<char>>,
    pub bus_path: Option<Seq<char>>,
}

impl View for DiskInfo {
    type V = DiskInfoView;

    open spec fn view(&self) -> DiskInfoView {
        DiskInfoView {
            id: self.id@,
            dev_path: self.dev_path@,
            size: self.size,
            size_pretty: self.size_pretty@,
            model: self.model.deep_view(),
            serial: self.serial.deep_view(),
            transport: self.transport.deep_view(),
            rotational: self.rotational,
            readonly: self.readonly,
            cdrom: self.cdrom,
            wwid: self.wwid.deep_view(),
            bus_path: self.bus_path.deep_view(),
        }
    }
}

impl DeepView for DiskInfo {
    type V = DiskInfoView;

    open spec fn deep_view(&self) -> DiskInfoView {
        self@
    }
}

/// What a `MachineConfigInfo` holds, every text taken as its characters.
pub struct MachineConfigView {
    pub version: Seq<char>,
    pub machine_type: Option<Seq<char>>,
}

impl View for MachineConfigInfo {
    type V = MachineConfigView;

    open spec fn view(&self) -> MachineConfigView {
        MachineConfigView { version: self.version@, machine_type: self.machine_type.deep_view() }
    }
}

/// What a `DiscoveryMember` holds, every text taken as its characters.
pub struct DiscoveryMemberView {
    pub id: Seq<char>,
    pub addresses: Seq<Seq<char>>,
    pub hostname: Seq<char>,
    pub machine_type: Seq<char>,
    pub operating_system: Seq<char>,
}

impl View for DiscoveryMember {
    type V = DiscoveryMemberView;

    open spec fn view(&self) -> DiscoveryMemberView {
        DiscoveryMemberView {
            id: self.id@,
            addresses: self.addresses.deep_view(),
            hostname: self.hostname@,
            machine_type: self.machine_type@,
            operating_system: self.operating_system@,
        }
    }
}

impl DeepView for DiscoveryMember {
    type V = DiscoveryMemberView;

    open spec fn deep_view(&self) -> DiscoveryMemberView {
        self@
    }
}

/// What a `AddressStatus` holds, every text taken as its characters.
pub struct AddressStatusView {
    pub id: Seq<char>,
    pub link_name: Seq<char>,
    pub address: Seq<char>,
    pub family: Seq<char>,
    pub scope: Seq<char>,
    pub flags: Seq<Seq<char>>,
}

impl View for AddressStatus {
    type V = AddressStatusView;

    open spec fn view(&self) -> AddressStatusView {
        AddressStatusView {
            id: self.id@,
            link_name: self.link_name@,
            address: self.address@,
            family: self.family@,
            scope: self.scope@,
            flags: self.flags.deep_view(),
        }
    }
}

impl DeepView for AddressStatus {
    type V = AddressStatusView;

    open spec fn deep_view(&self) -> AddressStatusView {
        self@
    }
}

/// What a `InsecureVersionInfo` holds, every text taken as its characters.
pub struct InsecureVersionView {
    pub tag: Seq<char>,
    pub maintenance_mode: bool,
}

impl View for InsecureVersionInfo {
    type V = InsecureVersionView;

    open spec fn view(&self) -> InsecureVersionView {
        InsecureVersionView { tag: self.tag@, maintenance_mode: self.maintenance_mode }
    }
}

/// The message of an error: what went wrong, a colon, and the detail.
pub open spec fn talos_error_message(error: TalosErrorView) -> Seq<char> {
    match error {
        TalosErrorView::Io(detail) => "I/O error: "@ + detail,
        TalosErrorView::Connection(detail) => "Connection error: "@ + detail,
        TalosErrorView::ContextNotFound(detail) => "Context not found: "@ + detail,
        TalosErrorView::NoEndpoints(detail) => "No endpoints configured for context: "@ + detail,
    }
}

impl TalosError {
    /// The message of the error.
    pub fn message(&self) -> (text: String)
        ensures
            text@ == talos_error_message(self@),
    {
        let (mut text, detail) = match self {
            TalosError::Io(detail) => ("I/O error: ".to_string(), detail),
            TalosError::Connection(detail) => ("Connection error: ".to_string(), detail),
            TalosError::ContextNotFound(detail) => ("Context not found: ".to_string(), detail),
            TalosError::NoEndpoints(detail) => (
                "No endpoints configured for context: ".to_string(),
                detail,
            ),
        };
        text.append(detail.as_str());
        text
    }
}

/// `first`, or `second` where `first` is absent.
pub open spec fn or_else<T>(first: Option<T>, second: Option<T>) -> Option<T> {
    match first {
        Some(_) => first,
        None => second,
    }
}

/// The text, or `fallback` where it is absent.
pub open spec fn or_text(text: Option<Seq<char>>, fallback: Seq<char>) -> Seq<char> {
    match text {
        Some(t) => t,
        None => fallback,
    }
}

/// The text, unless it is absent or empty.
pub open spec fn nonempty(text: Option<Seq<char>>) -> Option<Seq<char>> {
    match text {
        Some(t) => if t.len() > 0 {
            Some(t)
        } else {
            None
        },
        None => None,
    }
}

/// The text under `outer`, then `inner`, of a document.
pub open spec fn text_at(document: YamlTree, outer: Seq<char>, inner: Seq<char>) -> Option<Seq<char>> {
    text_of(member_of(member(document, outer), inner))
}

/// The id of a resource document: the text at `metadata.id`, empty where
/// there is none.
pub open spec fn resource_id(document: YamlTree) -> Seq<char> {
    or_text(text_at(document, "metadata"@, "id"@), Seq::empty())
}

/// The volume that a resource document describes; none where the
/// document has no id. The size falls back to the volume's type, so does
/// the filesystem; the mount location falls back to the target path of
/// the mount spec, then to an id that is a path.
pub open spec fn volume_of(document: YamlTree) -> Option<VolumeStatusView> {
    let id = resource_id(document);
    let spec = member(document, "spec"@);
    let kind = text_of(member_of(spec, "type"@));
    if id.len() == 0 {
        None
    } else {
        Some(
            VolumeStatusView {
                id,
                encryption_provider: text_of(member_of(spec, "encryptionProvider"@)),
                phase: or_text(text_of(member_of(spec, "phase"@)), "unknown"@),
                size: or_text(
                    or_else(text_of(member_of(spec, "prettySize"@)), kind),
                    Seq::empty(),
                ),
                filesystem: or_else(text_of(member_of(spec, "filesystem"@)), kind),
                mount_location: or_else(
                    or_else(
                        text_of(member_of(spec, "mountLocation"@)),
                        text_of(member_of(member_of(spec, "mountSpec"@), "targetPath"@)),
                    ),
                    if starts_with(id, "/"@) {
                        Some(id)
                    } else {
                        None
                    },
                ),
            },
        )
    }
}

/// The disk that a resource document describes; none where the document
/// has no id. The pretty size is read from `human_size` or, where that
/// member is missing, from `pretty_size`.
pub open spec fn disk_of(document: YamlTree) -> Option<DiskInfoView> {
    let id = resource_id(document);
    let spec = member(document, "spec"@);
    if id.len() == 0 {
        None
    } else {
        Some(
            DiskInfoView {
                id,
                dev_path: or_text(text_of(member_of(spec, "dev_path"@)), Seq::empty()),
                size: match unsigned_of(member_of(spec, "size"@)) {
                    Some(size) => size,
                    None => 0,
                },
                size_pretty: or_text(
                    text_of(
                        or_else(member_of(spec, "human_size"@), member_of(spec, "pretty_size"@)),
                    ),
                    Seq::empty(),
                ),
                model: nonempty(text_of(member_of(spec, "model"@))),
                serial: nonempty(text_of(member_of(spec, "serial"@))),
                transport: nonempty(text_of(member_of(spec, "transport"@))),
                rotational: bool_of(member_of(spec, "rotational"@)) == Some(true),
                readonly: bool_of(member_of(spec, "readonly"@)) == Some(true),
                cdrom: bool_of(member_of(spec, "cdrom"@)) == Some(true),
                wwid: nonempty(text_of(member_of(spec, "wwid"@))),
                bus_path: nonempty(text_of(member_of(spec, "bus_path"@))),
            },
        )
    }
}

/// The volumes that the documents describe, in order.
pub open spec fn volumes_of(documents: Seq<YamlTree>) -> Seq<VolumeStatusView>
    decreases documents.len(),
{
    if documents.len() == 0 {
        Seq::empty()
    } else {
        match volume_of(documents.last()) {
            Some(volume) => volumes_of(documents.drop_last()).push(volume),
            None => volumes_of(documents.drop_last()),
        }
    }
}

/// The disks that the documents describe, in order.
pub open spec fn disks_of(documents: Seq<YamlTree>) -> Seq<DiskInfoView>
    decreases documents.len(),
{
    if documents.len() == 0 {
        Seq::empty()
    } else {
        match disk_of(documents.last()) {
            Some(disk) => disks_of(documents.drop_last()).push(disk),
            None => disks_of(documents.drop_last()),
        }
    }
}

fn text_or(text: Option<String>, fallback: &str) -> (result: String)
    ensures
        result@ == or_text(text.deep_view(), fallback@),
{
    match text {
        Some(t) => t,
        None => fallback.to_string(),
    }
}

fn first_text(first: Option<String>, second: Option<String>) -> (result: Option<String>)
    ensures
        result.deep_view() == or_else(first.deep_view(), second.deep_view()),
{
    match first {
        Some(t) => Some(t),
        None => second,
    }
}

fn keep_nonempty(text: Option<String>) -> (result: Option<String>)
    ensures
        result.deep_view() == nonempty(text.deep_view()),
{
    match text {
        Some(t) => {
            if t.as_str().unicode_len() > 0 {
                Some(t)
            } else {
                None
            }
        },
        None => None,
    }
}

fn clone_optional(text: &Option<String>) -> (copy: Option<String>)
    ensures
        copy.deep_view() == text.deep_view(),
{
    match text {
        Some(t) => Some(t.clone()),
        None => None,
    }
}

fn read_resource_id(document: &YamlNode) -> (id: String)
    ensures
        id@ == resource_id(document@),
{
    let id = text_or(text_in(document.get("metadata"), "id"), "");
    proof {
        reveal_strlit("");
        assert(""@ =~= Seq::<char>::empty());
    }
    id
}

/// Draws the volume from a resource document.
pub fn volume_from_document(document: &YamlNode) -> (volume: Option<VolumeStatus>)
    ensures
        volume.is_some() == volume_of(document@).is_some(),
        volume matches Some(v) ==> volume_of(document@) == Some(v@),
{
    proof {
        reveal_strlit("");
        assert(""@ =~= Seq::<char>::empty());
    }
    let id = read_resource_id(document);
    if id.as_str().unicode_len() == 0 {
        return None;
    }
    let spec = document.get("spec");
    let kind = text_in(spec, "type");
    let mount_location = first_text(
        first_text(text_in(spec, "mountLocation"), text_in(get_in(spec, "mountSpec"), "targetPath")),
        if text_starts_with(id.as_str(), "/") {
            Some(id.clone())
        } else {
            None
        },
    );
    Some(
        VolumeStatus {
            encryption_provider: text_in(spec, "encryptionProvider"),
            phase: text_or(text_in(spec, "phase"), "unknown"),
            size: text_or(first_text(text_in(spec, "prettySize"), clone_optional(&kind)), ""),
            filesystem: first_text(text_in(spec, "filesystem"), kind),
            mount_location,
            id,
        },
    )
}

/// Draws the disk from a resource document.
pub fn disk_from_document(document: &YamlNode) -> (disk: Option<DiskInfo>)
    ensures
        disk.is_some() == disk_of(document@).is_some(),
        disk matches Some(d) ==> disk_of(document@) == Some(d@),
{
    proof {
        reveal_strlit("");
        assert(""@ =~= Seq::<char>::empty());
    }
    let id = read_resource_id(document);
    if id.as_str().unicode_len() == 0 {
        return None;
    }
    let spec = document.get("spec");
    let size_pretty = match get_in(spec, "human_size") {
        Some(node) => match node.as_str() {
            Some(t) => t.to_string(),
            None => "".to_string(),
        },
        None => text_or(text_in(spec, "pretty_size"), ""),
    };
    Some(
        DiskInfo {
            id,
            dev_path: text_or(text_in(spec, "dev_path"), ""),
            size: match unsigned_in(spec, "size") {
                Some(size) => size,
                None => 0,
            },
            size_pretty,
            model: keep_nonempty(text_in(spec, "model")),
            serial: keep_nonempty(text_in(spec, "serial")),
            transport: keep_nonempty(text_in(spec, "transport")),
            rotational: match bool_in(spec, "rotational") {
                Some(b) => b,
                None => false,
            },
            readonly: match bool_in(spec, "readonly") {
                Some(b) => b,
                None => false,
            },
            cdrom: match bool_in(spec, "cdrom") {
                Some(b) => b,
                None => false,
            },
            wwid: keep_nonempty(text_in(spec, "wwid")),
            bus_path: keep_nonempty(text_in(spec, "bus_path")),
        },
    )
}

/// Reads the volumes off the YAML stream that `talosctl get
/// volumestatus` prints. Documents that cannot be read or have no id are
/// passed over; the reading itself never fails.
pub fn parse_volume_status_yaml(yaml: &str) -> (result: Result<Vec<VolumeStatus>, TalosError>)
    ensures
        result is Ok,
        result->Ok_0.deep_view() == volumes_of(readable_documents(document_texts(yaml@))),
{
    let documents = read_documents(yaml);
    let mut volumes: Vec<VolumeStatus> = Vec::new();
    let mut i: usize = 0;
    assert(documents.deep_view().take(0) =~= Seq::empty());
    while i < documents.len()
        invariant
            i <= documents.len(),
            volumes.deep_view() == volumes_of(documents.deep_view().take(i as int)),
        decreases documents.len() - i,
    {
        let ghost before = volumes.deep_view();
        proof {
            let prefix = documents.deep_view().take(i + 1);
            assert(prefix.drop_last() =~= documents.deep_view().take(i as int));
            assert(prefix.last() == documents@[i as int]@);
        }
        match volume_from_document(&documents[i]) {
            Some(volume) => {
                volumes.push(volume);
                assert(volumes.deep_view() =~= before.push(volume@));
            },
            None => {},
        }
        i += 1;
    }
    assert(documents.deep_view().take(documents.len() as int) =~= documents.deep_view());
    Ok(volumes)
}

/// Reads the disks off the YAML stream that `talosctl get disks`
/// prints. Documents that cannot be read or have no id are passed over;
/// the reading itself never fails.
pub fn parse_disks_yaml(yaml: &str) -> (result: Result<Vec<DiskInfo>, TalosError>)
    ensures
        result is Ok,
        result->Ok_0.deep_view() == disks_of(readable_documents(document_texts(yaml@))),
{
    let documents = read_documents(yaml);
    let mut disks: Vec<DiskInfo> = Vec::new();
    let mut i: usize = 0;
    assert(documents.deep_view().take(0) =~= Seq::empty());
    while i < documents.len()
        invariant
            i <= documents.len(),
            disks.deep_view() == disks_of(documents.deep_view().take(i as int)),
        decreases documents.len() - i,
    {
        let ghost before = disks.deep_view();
        proof {
            let prefix = documents.deep_view().take(i + 1);
            assert(prefix.drop_last() =~= documents.deep_view().take(i as int));
            assert(prefix.last() == documents@[i as int]@);
        }
        match disk_from_document(&documents[i]) {
            Some(disk) => {
                disks.push(disk);
                assert(disks.deep_view() =~= before.push(disk@));
            },
            None => {},
        }
        i += 1;
    }
    assert(documents.deep_view().take(documents.len() as int) =~= documents.deep_view());
    Ok(disks)
}


/// The machine configuration that a resource document describes.
pub open spec fn machine_config_of(document: YamlTree) -> MachineConfigView {
    MachineConfigView {
        version: or_text(text_at(document, "metadata"@, "version"@), Seq::empty()),
        machine_type: text_of(
            member_of(member_of(member(document, "spec"@), "machine"@), "type"@),
        ),
    }
}

/// The member that a resource document describes; none where the
/// document has no id.
pub open spec fn discovery_member_of(document: YamlTree) -> Option<DiscoveryMemberView> {
    let id = resource_id(document);
    let spec = member(document, "spec"@);
    if id.len() == 0 {
        None
    } else {
        Some(
            DiscoveryMemberView {
                id,
                addresses: text_list_of(member_of(spec, "addresses"@)),
                hostname: or_text(text_of(member_of(spec, "hostname"@)), Seq::empty()),
                machine_type: or_text(text_of(member_of(spec, "machineType"@)), "unknown"@),
                operating_system: or_text(
                    text_of(member_of(spec, "operatingSystem"@)),
                    Seq::empty(),
                ),
            },
        )
    }
}

/// The address that a resource document describes; none where the
/// document has no id.
pub open spec fn address_status_of(document: YamlTree) -> Option<AddressStatusView> {
    let id = resource_id(document);
    let spec = member(document, "spec"@);
    if id.len() == 0 {
        None
    } else {
        Some(
            AddressStatusView {
                id,
                link_name: or_text(text_of(member_of(spec, "linkName"@)), Seq::empty()),
                address: or_text(text_of(member_of(spec, "address"@)), Seq::empty()),
                family: or_text(text_of(member_of(spec, "family"@)), "inet"@),
                scope: or_text(text_of(member_of(spec, "scope"@)), "global"@),
                flags: text_list_of(member_of(spec, "flags"@)),
            },
        )
    }
}

/// The members that the documents describe, in order.
pub open spec fn discovery_members_of(documents: Seq<YamlTree>) -> Seq<DiscoveryMemberView>
    decreases documents.len(),
{
    if documents.len() == 0 {
        Seq::empty()
    } else {
        match discovery_member_of(documents.last()) {
            Some(found) => discovery_members_of(documents.drop_last()).push(found),
            None => discovery_members_of(documents.drop_last()),
        }
    }
}

/// The addresses that the documents describe, in order.
pub open spec fn address_statuses_of(documents: Seq<YamlTree>) -> Seq<AddressStatusView>
    decreases documents.len(),
{
    if documents.len() == 0 {
        Seq::empty()
    } else {
        match address_status_of(documents.last()) {
            Some(found) => address_statuses_of(documents.drop_last()).push(found),
            None => address_statuses_of(documents.drop_last()),
        }
    }
}

/// Draws the machine configuration from a resource document.
pub fn machine_config_from_document(document: &YamlNode) -> (config: MachineConfigInfo)
    ensures
        config@ == machine_config_of(document@),
{
    proof {
        reveal_strlit("");
        assert(""@ =~= Seq::<char>::empty());
    }
    MachineConfigInfo {
        version: text_or(text_in(document.get("metadata"), "version"), ""),
        machine_type: text_in(get_in(document.get("spec"), "machine"), "type"),
    }
}

/// Draws the discovery member from a resource document.
pub fn discovery_member_from_document(document: &YamlNode) -> (found: Option<DiscoveryMember>)
    ensures
        found.is_some() == discovery_member_of(document@).is_some(),
        found matches Some(m) ==> discovery_member_of(document@) == Some(m@),
{
    proof {
        reveal_strlit("");
        assert(""@ =~= Seq::<char>::empty());
    }
    let id = read_resource_id(document);
    if id.as_str().unicode_len() == 0 {
        return None;
    }
    let spec = document.get("spec");
    Some(
        DiscoveryMember {
            id,
            addresses: text_list_in(spec, "addresses"),
            hostname: text_or(text_in(spec, "hostname"), ""),
            machine_type: text_or(text_in(spec, "machineType"), "unknown"),
            operating_system: text_or(text_in(spec, "operatingSystem"), ""),
        },
    )
}

/// Draws the address from a resource document.
pub fn address_status_from_document(document: &YamlNode) -> (found: Option<AddressStatus>)
    ensures
        found.is_some() == address_status_of(document@).is_some(),
        found matches Some(a) ==> address_status_of(document@) == Some(a@),
{
    proof {
        reveal_strlit("");
        assert(""@ =~= Seq::<char>::empty());
    }
    let id = read_resource_id(document);
    if id.as_str().unicode_len() == 0 {
        return None;
    }
    let spec = document.get("spec");
    Some(
        AddressStatus {
            id,
            link_name: text_or(text_in(spec, "linkName"), ""),
            address: text_or(text_in(spec, "address"), ""),
            family: text_or(text_in(spec, "family"), "inet"),
            scope: text_or(text_in(spec, "scope"), "global"),
            flags: text_list_in(spec, "flags"),
        },
    )
}

/// What reading the machine configuration off `yaml` gives: the
/// configuration of the document, or a connection error that holds the
/// reader's error.
pub open spec fn machine_config_reading(yaml: Seq<char>) -> Result<MachineConfigView, TalosErrorView> {
    match yaml_reading(yaml) {
        Ok(document) => Ok(machine_config_of(document)),
        Err(error) => Err(TalosErrorView::Connection("Failed to parse YAML: "@ + error)),
    }
}

/// Reads the machine configuration off the YAML document that `talosctl
/// get machineconfig` prints.
pub fn parse_machine_config_yaml(yaml: &str) -> (result: Result<MachineConfigInfo, TalosError>)
    ensures
        match result {
            Ok(config) => machine_config_reading(yaml@) == Ok::<
                MachineConfigView,
                TalosErrorView,
            >(config@),
            Err(error) => machine_config_reading(yaml@) == Err::<
                MachineConfigView,
                TalosErrorView,
            >(error@),
        },
{
    match read_document(yaml) {
        Ok(document) => Ok(machine_config_from_document(&document)),
        Err(error) => {
            let mut text = "Failed to parse YAML: ".to_string();
            text.append(error.as_str());
            Err(TalosError::Connection(text))
        },
    }
}

/// Reads the discovery members off the YAML stream that `talosctl get
/// members` prints. Documents that cannot be read or have no id are
/// passed over; the reading itself never fails.
pub fn parse_discovery_members_yaml(yaml: &str) -> (result: Result<
    Vec<DiscoveryMember>,
    TalosError,
>)
    ensures
        result is Ok,
        result->Ok_0.deep_view() == discovery_members_of(
            readable_documents(document_texts(yaml@)),
        ),
{
    let documents = read_documents(yaml);
    let mut members: Vec<DiscoveryMember> = Vec::new();
    let mut i: usize = 0;
    assert(documents.deep_view().take(0) =~= Seq::empty());
    while i < documents.len()
        invariant
            i <= documents.len(),
            members.deep_view() == discovery_members_of(documents.deep_view().take(i as int)),
        decreases documents.len() - i,
    {
        let ghost before = members.deep_view();
        proof {
            let prefix = documents.deep_view().take(i + 1);
            assert(prefix.drop_last() =~= documents.deep_view().take(i as int));
            assert(prefix.last() == documents@[i as int]@);
        }
        match discovery_member_from_document(&documents[i]) {
            Some(found) => {
                members.push(found);
                assert(members.deep_view() =~= before.push(found@));
            },
            None => {},
        }
        i += 1;
    }
    assert(documents.deep_view().take(documents.len() as int) =~= documents.deep_view());
    Ok(members)
}

/// Reads the addresses off the YAML stream that `talosctl get
/// addressstatus` prints. Documents that cannot be read or have no id
/// are passed over; the reading itself never fails.
pub fn parse_address_status_yaml(yaml: &str) -> (result: Result<Vec<AddressStatus>, TalosError>)
    ensures
        result is Ok,
        result->Ok_0.deep_view() == address_statuses_of(
            readable_documents(document_texts(yaml@)),
        ),
{
    let documents = read_documents(yaml);
    let mut addresses: Vec<AddressStatus> = Vec::new();
    let mut i: usize = 0;
    assert(documents.deep_view().take(0) =~= Seq::empty());
    while i < documents.len()
        invariant
            i <= documents.len(),
            addresses.deep_view() == address_statuses_of(documents.deep_view().take(i as int)),
        decreases documents.len() - i,
    {
        let ghost before = addresses.deep_view();
        proof {
            let prefix = documents.deep_view().take(i + 1);
            assert(prefix.drop_last() =~= documents.deep_view().take(i as int));
            assert(prefix.last() == documents@[i as int]@);
        }
        match address_status_from_document(&documents[i]) {
            Some(found) => {
                addresses.push(found);
                assert(addresses.deep_view() =~= before.push(found@));
            },
            None => {},
        }
        i += 1;
    }
    assert(documents.deep_view().take(documents.len() as int) =~= documents.deep_view());
    Ok(addresses)
}

/// What a run of `talosctl` comes to: its standard output where it
/// succeeded, else a connection error with its trimmed standard error.
pub open spec fn command_outcome_of(success: bool, stdout: Seq<char>, stderr: Seq<char>) -> Result<
    Seq<char>,
    TalosErrorView,
> {
    if success {
        Ok(stdout)
    } else {
        Err(TalosErrorView::Connection("talosctl failed: "@ + trimmed(stderr)))
    }
}

/// Reads the end of a run of `talosctl`: its exit status, what it
/// printed and what it complained of.
pub fn command_outcome(success: bool, stdout: String, stderr: &str) -> (outcome: Result<
    String,
    TalosError,
>)
    ensures
        match outcome {
            Ok(text) => command_outcome_of(success, stdout@, stderr@) == Ok::<
                Seq<char>,
                TalosErrorView,
            >(text@),
            Err(error) => command_outcome_of(success, stdout@, stderr@) == Err::<
                Seq<char>,
                TalosErrorView,
            >(error@),
        },
{
    if success {
        Ok(stdout)
    } else {
        let mut text = "talosctl failed: ".to_string();
        let complaint = trim_text(stderr);
        text.append(complaint.as_str());
        Err(TalosError::Connection(text))
    }
}

fn push_arg(args: &mut Vec<String>, arg: &str)
    ensures
        final(args).deep_view() == old(args).deep_view().push(arg@),
{
    args.push(arg.to_string());
    assert(args.deep_view() =~= old(args).deep_view().push(arg@));
}

/// `get <resource> --nodes <node> -o yaml`.
pub open spec fn get_args_of(resource: Seq<char>, node: Seq<char>) -> Seq<Seq<char>> {
    seq!["get"@, resource, "--nodes"@, node, "-o"@, "yaml"@]
}

/// The arguments with which `talosctl` prints a resource of a node as
/// YAML.
pub fn get_args(resource: &str, node: &str) -> (args: Vec<String>)
    ensures
        args.deep_view() == get_args_of(resource@, node@),
{
    let mut args: Vec<String> = Vec::new();
    assert(args.deep_view() =~= Seq::empty());
    push_arg(&mut args, "get");
    push_arg(&mut args, resource);
    push_arg(&mut args, "--nodes");
    push_arg(&mut args, node);
    push_arg(&mut args, "-o");
    push_arg(&mut args, "yaml");
    assert(args.deep_view() =~= get_args_of(resource@, node@));
    args
}

/// `--context <context> [--talosconfig <path>] -n <node> get <resource>
/// -o yaml`.
pub open spec fn context_get_args_of(
    context: Seq<char>,
    config_path: Option<Seq<char>>,
    node: Seq<char>,
    resource: Seq<char>,
) -> Seq<Seq<char>> {
    seq!["--context"@, context] + (match config_path {
        Some(path) => seq!["--talosconfig"@, path],
        None => Seq::empty(),
    }) + seq!["-n"@, node, "get"@, resource, "-o"@, "yaml"@]
}

/// The arguments with which `talosctl` prints a resource of a node as
/// YAML under the certificates of a context.
pub fn context_get_args(context: &str, config_path: Option<&str>, node: &str, resource: &str) -> (args:
    Vec<String>)
    ensures
        args.deep_view() == context_get_args_of(
            context@,
            match config_path {
                Some(path) => Some(path@),
                None => None,
            },
            node@,
            resource@,
        ),
{
    let mut args: Vec<String> = Vec::new();
    assert(args.deep_view() =~= Seq::empty());
    push_arg(&mut args, "--context");
    push_arg(&mut args, context);
    match config_path {
        Some(path) => {
            push_arg(&mut args, "--talosconfig");
            push_arg(&mut args, path);
        },
        None => {},
    }
    push_arg(&mut args, "-n");
    push_arg(&mut args, node);
    push_arg(&mut args, "get");
    push_arg(&mut args, resource);
    push_arg(&mut args, "-o");
    push_arg(&mut args, "yaml");
    assert(args.deep_view() =~= context_get_args_of(
        context@,
        match config_path {
            Some(path) => Some(path@),
            None => None,
        },
        node@,
        resource@,
    ));
    args
}

/// `get <resource> --insecure -n <endpoint> -o yaml`.
pub open spec fn insecure_get_args_of(resource: Seq<char>, endpoint: Seq<char>) -> Seq<Seq<char>> {
    seq!["get"@, resource, "--insecure"@, "-n"@, endpoint, "-o"@, "yaml"@]
}

/// The arguments with which `talosctl` prints a resource of a node in
/// maintenance mode as YAML.
pub fn insecure_get_args(resource: &str, endpoint: &str) -> (args: Vec<String>)
    ensures
        args.deep_view() == insecure_get_args_of(resource@, endpoint@),
{
    let mut args: Vec<String> = Vec::new();
    assert(args.deep_view() =~= Seq::empty());
    push_arg(&mut args, "get");
    push_arg(&mut args, resource);
    push_arg(&mut args, "--insecure");
    push_arg(&mut args, "-n");
    push_arg(&mut args, endpoint);
    push_arg(&mut args, "-o");
    push_arg(&mut args, "yaml");
    assert(args.deep_view() =~= insecure_get_args_of(resource@, endpoint@));
    args
}

/// Reads the volume status of a node off the outcome of `talosctl get
/// volumestatus --nodes <node> -o yaml`: a failed run is handed on, the
/// output of a successful one is read as a YAML stream.
pub fn get_volume_status(outcome: Result<String, TalosError>) -> (result: Result<
    Vec<VolumeStatus>,
    TalosError,
>)
    ensures
        match outcome {
            Ok(output) => result is Ok && result->Ok_0.deep_view() == volumes_of(
                readable_documents(document_texts(output@)),
            ),
            Err(error) => result is Err && result->Err_0 == error,
        },
{
    match outcome {
        Ok(output) => parse_volume_status_yaml(output.as_str()),
        Err(error) => Err(error),
    }
}

/// Reads the disks of a node off the outcome of `talosctl get disks
/// --nodes <node> -o yaml`.
pub fn get_disks(outcome: Result<String, TalosError>) -> (result: Result<Vec<DiskInfo>, TalosError>)
    ensures
        match outcome {
            Ok(output) => result is Ok && result->Ok_0.deep_view() == disks_of(
                readable_documents(document_texts(output@)),
            ),
            Err(error) => result is Err && result->Err_0 == error,
        },
{
    match outcome {
        Ok(output) => parse_disks_yaml(output.as_str()),
        Err(error) => Err(error),
    }
}

/// Reads the machine configuration of a node off the outcome of
/// `talosctl get machineconfig --nodes <node> -o yaml`.
pub fn get_machine_config(outcome: Result<String, TalosError>) -> (result: Result<
    MachineConfigInfo,
    TalosError,
>)
    ensures
        match outcome {
            Ok(output) => match result {
                Ok(config) => machine_config_reading(output@) == Ok::<
                    MachineConfigView,
                    TalosErrorView,
                >(config@),
                Err(error) => machine_config_reading(output@) == Err::<
                    MachineConfigView,
                    TalosErrorView,
                >(error@),
            },
            Err(error) => result is Err && result->Err_0 == error,
        },
{
    match outcome {
        Ok(output) => parse_machine_config_yaml(output.as_str()),
        Err(error) => Err(error),
    }
}

/// Reads the discovery members off the outcome of `talosctl get members
/// --nodes <node> -o yaml`.
pub fn get_discovery_members(outcome: Result<String, TalosError>) -> (result: Result<
    Vec<DiscoveryMember>,
    TalosError,
>)
    ensures
        match outcome {
            Ok(output) => result is Ok && result->Ok_0.deep_view() == discovery_members_of(
                readable_documents(document_texts(output@)),
            ),
            Err(error) => result is Err && result->Err_0 == error,
        },
{
    match outcome {
        Ok(output) => parse_discovery_members_yaml(output.as_str()),
        Err(error) => Err(error),
    }
}

/// Reads the address status of a node off the outcome of `talosctl get
/// addressstatus --nodes <node> -o yaml`.
pub fn get_address_status(outcome: Result<String, TalosError>) -> (result: Result<
    Vec<AddressStatus>,
    TalosError,
>)
    ensures
        match outcome {
            Ok(output) => result is Ok && result->Ok_0.deep_view() == address_statuses_of(
                readable_documents(document_texts(output@)),
            ),
            Err(error) => result is Err && result->Err_0 == error,
        },
{
    match outcome {
        Ok(output) => parse_address_status_yaml(output.as_str()),
        Err(error) => Err(error),
    }
}

/// Whether the output of `talosctl get kubespanconfig` shows KubeSpan
/// enabled: it is not blank and names both `KubeSpanConfig` and
/// `enabled: true`.
pub open spec fn shows_kubespan_enabled(output: Seq<char>) -> bool {
    trimmed(output).len() > 0 && contains(trimmed(output), "KubeSpanConfig"@) && contains(
        trimmed(output),
        "enabled: true"@,
    )
}

/// Whether KubeSpan is enabled for a node, by the outcome of `talosctl
/// get kubespanconfig --nodes <node> -o yaml`: only where the command
/// succeeded and its output shows it.
pub fn is_kubespan_enabled(outcome: &Result<String, TalosError>) -> (enabled: bool)
    ensures
        enabled == match *outcome {
            Ok(output) => shows_kubespan_enabled(output@),
            Err(_) => false,
        },
{
    match outcome {
        Ok(output) => {
            let shown = trim_text(output.as_str());
            shown.as_str().unicode_len() > 0 && text_contains(shown.as_str(), "KubeSpanConfig")
                && text_contains(shown.as_str(), "enabled: true")
        },
        Err(_) => false,
    }
}


/// The first line from index `from` on whose trimmed form begins with
/// `Tag:`.
pub open spec fn tag_line(lines: Seq<Seq<char>>, from: int) -> Option<Seq<char>>
    decreases lines.len() - from,
{
    if from < 0 || from >= lines.len() {
        None
    } else if starts_with(trimmed(lines[from]), "Tag:"@) {
        Some(lines[from])
    } else {
        tag_line(lines, from + 1)
    }
}

/// The tag that a `Tag:` line names: what stands between its first and
/// its second colon, trimmed.
pub open spec fn tag_of_line(line: Seq<char>) -> Seq<char> {
    let fields = split_on(line, ":"@);
    if fields.len() > 1 {
        trimmed(fields[1])
    } else {
        "unknown"@
    }
}

/// The version tag that the output of `talosctl version` names, `unknown`
/// where it names none.
pub open spec fn version_tag(output: Seq<char>) -> Seq<char> {
    match tag_line(split_on(output, "\n"@), 0) {
        Some(line) => tag_of_line(line),
        None => "unknown"@,
    }
}

/// Whether the message of a failed version query tells that the node is
/// in maintenance mode.
pub open spec fn tells_maintenance_mode(message: Seq<char>) -> bool {
    contains(message, "maintenance mode"@) || contains(message, "not implemented"@)
}

/// Reads the version tag off the output of `talosctl version`.
pub fn parse_version_tag(output: &str) -> (tag: String)
    ensures
        tag@ == version_tag(output@),
{
    proof {
        reveal_strlit("\n");
        reveal_strlit(":");
    }
    let lines = split_text(output, "\n");
    let mut i: usize = 0;
    while i < lines.len()
        invariant
            i <= lines.len(),
            lines.deep_view() == split_on(output@, "\n"@),
            tag_line(lines.deep_view(), 0) == tag_line(lines.deep_view(), i as int),
        decreases lines.len() - i,
    {
        let line = &lines[i];
        assert(lines.deep_view()[i as int] == line@);
        let shown = trim_text(line.as_str());
        if text_starts_with(shown.as_str(), "Tag:") {
            proof {
                reveal_strlit(":");
            }
            let fields = split_text(line.as_str(), ":");
            assert(fields.deep_view().len() == fields.len());
            if fields.len() > 1 {
                assert(fields.deep_view()[1] == fields[1]@);
                return trim_text(fields[1].as_str());
            } else {
                return "unknown".to_string();
            }
        }
        i += 1;
    }
    "unknown".to_string()
}

/// Reads the outcome of `talosctl version --insecure`: a successful run
/// names the tag; a failure that tells of maintenance mode is no error
/// but a node in maintenance mode; any other failure is handed on.
pub fn version_from_outcome(outcome: Result<String, TalosError>) -> (result: Result<
    InsecureVersionInfo,
    TalosError,
>)
    ensures
        match outcome {
            Ok(output) => result is Ok && result->Ok_0@ == (InsecureVersionView {
                tag: version_tag(output@),
                maintenance_mode: false,
            }),
            Err(error) => if tells_maintenance_mode(talos_error_message(error@)) {
                result is Ok && result->Ok_0@ == (InsecureVersionView {
                    tag: "unknown"@,
                    maintenance_mode: true,
                })
            } else {
                result is Err && result->Err_0 == error
            },
        },
{
    match outcome {
        Ok(output) => Ok(
            InsecureVersionInfo { tag: parse_version_tag(output.as_str()), maintenance_mode: false },
        ),
        Err(error) => {
            let message = error.message();
            if text_contains(message.as_str(), "maintenance mode") || text_contains(
                message.as_str(),
                "not implemented",
            ) {
                Ok(InsecureVersionInfo { tag: "unknown".to_string(), maintenance_mode: true })
            } else {
                Err(error)
            }
        },
    }
}

/// What a `InsecureApplyResult` holds, every text taken as its characters.
pub struct InsecureApplyView {
    pub success: bool,
    pub message: Seq<char>,
}

impl View for InsecureApplyResult {
    type V = InsecureApplyView;

    open spec fn view(&self) -> InsecureApplyView {
        InsecureApplyView { success: self.success, message: self.message@ }
    }
}

/// What the outcome of `talosctl apply-config --insecure` comes to: a
/// success with the command's output, or with a standard line where the
/// output is blank; a failure with the error's message.
pub open spec fn apply_result_of(outcome: Result<Seq<char>, TalosErrorView>) -> InsecureApplyView {
    match outcome {
        Ok(output) => InsecureApplyView {
            success: true,
            message: if trimmed(output).len() == 0 {
                "Configuration applied successfully. Node will install and reboot."@
            } else {
                output
            },
        },
        Err(error) => InsecureApplyView {
            success: false,
            message: "Failed to apply config: "@ + talos_error_message(error),
        },
    }
}

/// Reads the outcome of `talosctl apply-config --insecure`.
pub fn apply_result(outcome: Result<String, TalosError>) -> (result: InsecureApplyResult)
    ensures
        result@ == apply_result_of(
            match outcome {
                Ok(output) => Ok(output@),
                Err(error) => Err(error@),
            },
        ),
{
    match outcome {
        Ok(output) => {
            let blank = trim_text(output.as_str()).as_str().unicode_len() == 0;
            InsecureApplyResult {
                success: true,
                message: if blank {
                    "Configuration applied successfully. Node will install and reboot.".to_string()
                } else {
                    output
                },
            }
        },
        Err(error) => {
            let mut message = "Failed to apply config: ".to_string();
            message.append(error.message().as_str());
            InsecureApplyResult { success: false, message }
        },
    }
}

/// What a `GenConfigResult` holds, every text taken as its characters.
pub struct GenConfigView {
    pub controlplane_path: Seq<char>,
    pub worker_path: Seq<char>,
    pub talosconfig_path: Seq<char>,
    pub output_dir: Seq<char>,
}

impl View for GenConfigResult {
    type V = GenConfigView;

    open spec fn view(&self) -> GenConfigView {
        GenConfigView {
            controlplane_path: self.controlplane_path@,
            worker_path: self.worker_path@,
            talosconfig_path: self.talosconfig_path@,
            output_dir: self.output_dir@,
        }
    }
}

/// The files that `talosctl gen config` writes into `output_dir`.
pub open spec fn gen_config_result_of(output_dir: Seq<char>) -> GenConfigView {
    GenConfigView {
        controlplane_path: output_dir + "/controlplane.yaml"@,
        worker_path: output_dir + "/worker.yaml"@,
        talosconfig_path: output_dir + "/talosconfig"@,
        output_dir,
    }
}

fn path_in(directory: &str, file: &str) -> (path: String)
    ensures
        path@ == directory@ + file@,
{
    let mut path = directory.to_string();
    path.append(file);
    path
}

/// Names the files that `talosctl gen config` has written into
/// `output_dir`.
pub fn gen_config_result(output_dir: &str) -> (result: GenConfigResult)
    ensures
        result@ == gen_config_result_of(output_dir@),
{
    GenConfigResult {
        controlplane_path: path_in(output_dir, "/controlplane.yaml"),
        worker_path: path_in(output_dir, "/worker.yaml"),
        talosconfig_path: path_in(output_dir, "/talosconfig"),
        output_dir: output_dir.to_string(),
    }
}

/// `names` joined with commas.
pub open spec fn comma_joined(names: Seq<Seq<char>>) -> Seq<char>
    decreases names.len(),
{
    if names.len() == 0 {
        Seq::empty()
    } else if names.len() == 1 {
        names[0]
    } else {
        comma_joined(names.drop_last()) + ","@ + names.last()
    }
}

/// `gen config <cluster> <endpoint> --output-dir <dir>`, then
/// `--additional-sans <a,b,..>` where names are given, then `--force`
/// where asked for.
pub open spec fn gen_config_args_of(
    cluster_name: Seq<char>,
    kubernetes_endpoint: Seq<char>,
    output_dir: Seq<char>,
    additional_sans: Seq<Seq<char>>,
    force: bool,
) -> Seq<Seq<char>> {
    seq!["gen"@, "config"@, cluster_name, kubernetes_endpoint, "--output-dir"@, output_dir] + (
    if additional_sans.len() > 0 {
        seq!["--additional-sans"@, comma_joined(additional_sans)]
    } else {
        Seq::empty()
    }) + (if force {
        seq!["--force"@]
    } else {
        Seq::empty()
    })
}

fn join_with_commas(names: &Vec<String>) -> (joined: String)
    ensures
        joined@ == comma_joined(names.deep_view()),
{
    let mut joined = String::new();
    let mut i: usize = 0;
    assert(names.deep_view().take(0) =~= Seq::empty());
    while i < names.len()
        invariant
            i <= names.len(),
            joined@ == comma_joined(names.deep_view().take(i as int)),
        decreases names.len() - i,
    {
        proof {
            let prefix = names.deep_view().take(i + 1);
            assert(prefix.drop_last() =~= names.deep_view().take(i as int));
            assert(prefix.last() == names[i as int]@);
            if i == 0 {
                assert(prefix[0] == names[0]@);
            }
        }
        if i > 0 {
            joined.append(",");
        }
        joined.append(names[i].as_str());
        proof {
            if i == 0 {
                assert(joined@ =~= names[0]@);
            }
        }
        i += 1;
    }
    assert(names.deep_view().take(names.len() as int) =~= names.deep_view());
    joined
}

/// The arguments with which `talosctl` generates the machine
/// configuration of a cluster.
pub fn gen_config_args(
    cluster_name: &str,
    kubernetes_endpoint: &str,
    output_dir: &str,
    additional_sans: &Vec<String>,
    force: bool,
) -> (args: Vec<String>)
    ensures
        args.deep_view() == gen_config_args_of(
            cluster_name@,
            kubernetes_endpoint@,
            output_dir@,
            additional_sans.deep_view(),
            force,
        ),
{
    let mut args: Vec<String> = Vec::new();
    assert(args.deep_view() =~= Seq::empty());
    push_arg(&mut args, "gen");
    push_arg(&mut args, "config");
    push_arg(&mut args, cluster_name);
    push_arg(&mut args, kubernetes_endpoint);
    push_arg(&mut args, "--output-dir");
    push_arg(&mut args, output_dir);
    if additional_sans.len() > 0 {
        push_arg(&mut args, "--additional-sans");
        let joined = join_with_commas(additional_sans);
        push_arg(&mut args, joined.as_str());
    }
    if force {
        push_arg(&mut args, "--force");
    }
    assert(args.deep_view() =~= gen_config_args_of(
        cluster_name@,
        kubernetes_endpoint@,
        output_dir@,
        additional_sans.deep_view(),
        force,
    ));
    args
}

/// The node that a query under `context` is sent to: the host of the
/// context's first endpoint. A context that is not configured, has no
/// endpoint or an endpoint without a host is an error.
pub open spec fn context_node_of(context: Seq<char>, endpoints: Option<Seq<Seq<char>>>) -> Result<
    Seq<char>,
    TalosErrorView,
> {
    match endpoints {
        None => Err(TalosErrorView::ContextNotFound(context)),
        Some(list) => if list.len() == 0 || split_on(list[0], ":"@)[0].len() == 0 {
            Err(TalosErrorView::NoEndpoints(context))
        } else {
            Ok(split_on(list[0], ":"@)[0])
        },
    }
}

/// Picks the node for a query under `context`, whose endpoints are
/// `endpoints` (`None` where the context is not configured).
pub fn context_node(context: &str, endpoints: Option<&Vec<String>>) -> (node: Result<
    String,
    TalosError,
>)
    ensures
        match node {
            Ok(ip) => context_node_of(
                context@,
                match endpoints {
                    Some(list) => Some(list.deep_view()),
                    None => None,
                },
            ) == Ok::<Seq<char>, TalosErrorView>(ip@),
            Err(error) => context_node_of(
                context@,
                match endpoints {
                    Some(list) => Some(list.deep_view()),
                    None => None,
                },
            ) == Err::<Seq<char>, TalosErrorView>(error@),
        },
{
    proof {
        reveal_strlit(":");
    }
    match endpoints {
        None => Err(TalosError::ContextNotFound(context.to_string())),
        Some(list) => {
            if list.len() == 0 {
                return Err(TalosError::NoEndpoints(context.to_string()));
            }
            assert(list.deep_view()[0] == list[0]@);
            let ip = crate::slicing::first_piece(list[0].as_str(), ":");
            if ip.as_str().unicode_len() == 0 {
                Err(TalosError::NoEndpoints(context.to_string()))
            } else {
                Ok(ip)
            }
        },
    }
}


/// The round-trip time of a peer as its resource gives it: a number of
/// nanoseconds, held as its numeral, or a text such as `2.5ms`.
#[derive(Debug, Clone)]
pub enum RoundTrip {
    Nanoseconds(String),
    Duration(String),
}

/// What a `RoundTrip` holds, every text taken as its characters.
pub enum RoundTripView {
    Nanoseconds(Seq<char>),
    Duration(Seq<char>),
}

impl View for RoundTrip {
    type V = RoundTripView;

    open spec fn view(&self) -> RoundTripView {
        match self {
            RoundTrip::Nanoseconds(numeral) => RoundTripView::Nanoseconds(numeral@),
            RoundTrip::Duration(text) => RoundTripView::Duration(text@),
        }
    }
}

/// KubeSpan peer status from a KubeSpanPeerStatus resource; the
/// round-trip time is held as the resource writes it.
#[derive(Debug, Clone)]
pub struct KubeSpanPeerRecord {
    /// Peer ID.
    pub id: String,
    /// Peer label; the id where the resource names none.
    pub label: String,
    /// Endpoint address.
    pub endpoint: Option<String>,
    /// Peer state, such as `up` or `down`.
    pub state: String,
    /// Round-trip time.
    pub rtt: Option<RoundTrip>,
    /// Last handshake time.
    pub last_handshake: Option<String>,
    /// Received bytes.
    pub rx_bytes: u64,
    /// Transmitted bytes.
    pub tx_bytes: u64,
}

/// What a `KubeSpanPeerRecord` holds, every text taken as its characters.
pub struct KubeSpanPeerView {
    pub id: Seq<char>,
    pub label: Seq<char>,
    pub endpoint: Option<Seq<char>>,
    pub state: Seq<char>,
    pub rtt: Option<RoundTripView>,
    pub last_handshake: Option<Seq<char>>,
    pub rx_bytes: u64,
    pub tx_bytes: u64,
}

impl View for KubeSpanPeerRecord {
    type V = KubeSpanPeerView;

    open spec fn view(&self) -> KubeSpanPeerView {
        KubeSpanPeerView {
            id: self.id@,
            label: self.label@,
            endpoint: self.endpoint.deep_view(),
            state: self.state@,
            rtt: match self.rtt {
                Some(rtt) => Some(rtt@),
                None => None,
            },
            last_handshake: self.last_handshake.deep_view(),
            rx_bytes: self.rx_bytes,
            tx_bytes: self.tx_bytes,
        }
    }
}

impl DeepView for KubeSpanPeerRecord {
    type V = KubeSpanPeerView;

    open spec fn deep_view(&self) -> KubeSpanPeerView {
        self@
    }
}

/// The round-trip time that a node gives: a number by its numeral, a
/// text as it is, nothing else.
pub open spec fn round_trip_of(node: Option<YamlTree>) -> Option<RoundTripView> {
    match numeral_of(node) {
        Some(numeral) => Some(RoundTripView::Nanoseconds(numeral)),
        None => match text_of(node) {
            Some(text) => Some(RoundTripView::Duration(text)),
            None => None,
        },
    }
}

/// The count under a node, zero where it is no unsigned number.
pub open spec fn count_of(node: Option<YamlTree>) -> u64 {
    match unsigned_of(node) {
        Some(count) => count,
        None => 0,
    }
}

/// The peer that a resource document describes; none where the document
/// has no id.
pub open spec fn kubespan_peer_of(document: YamlTree) -> Option<KubeSpanPeerView> {
    let id = resource_id(document);
    let spec = member(document, "spec"@);
    if id.len() == 0 {
        None
    } else {
        Some(
            KubeSpanPeerView {
                id,
                label: or_text(text_of(member_of(spec, "label"@)), id),
                endpoint: text_of(member_of(spec, "endpoint"@)),
                state: or_text(text_of(member_of(spec, "state"@)), "unknown"@),
                rtt: round_trip_of(member_of(member_of(spec, "lastUsedEndpoint"@), "rtt"@)),
                last_handshake: text_of(member_of(spec, "lastHandshakeTime"@)),
                rx_bytes: count_of(member_of(spec, "receiveBytes"@)),
                tx_bytes: count_of(member_of(spec, "transmitBytes"@)),
            },
        )
    }
}

/// The peers that the documents describe, in order.
pub open spec fn kubespan_peers_of(documents: Seq<YamlTree>) -> Seq<KubeSpanPeerView>
    decreases documents.len(),
{
    if documents.len() == 0 {
        Seq::empty()
    } else {
        match kubespan_peer_of(documents.last()) {
            Some(found) => kubespan_peers_of(documents.drop_last()).push(found),
            None => kubespan_peers_of(documents.drop_last()),
        }
    }
}

fn round_trip_in(node: Option<&YamlNode>) -> (rtt: Option<RoundTrip>)
    ensures
        match rtt {
            Some(r) => round_trip_of(crate::yaml::tree_of(node)) == Some(r@),
            None => round_trip_of(crate::yaml::tree_of(node)) is None,
        },
{
    match node {
        Some(n) => match n.as_numeral() {
            Some(numeral) => Some(RoundTrip::Nanoseconds(numeral.to_string())),
            None => match n.as_str() {
                Some(text) => Some(RoundTrip::Duration(text.to_string())),
                None => None,
            },
        },
        None => None,
    }
}

/// Draws the KubeSpan peer from a resource document.
pub fn kubespan_peer_from_document(document: &YamlNode) -> (peer: Option<KubeSpanPeerRecord>)
    ensures
        peer.is_some() == kubespan_peer_of(document@).is_some(),
        peer matches Some(p) ==> kubespan_peer_of(document@) == Some(p@),
{
    let id = read_resource_id(document);
    if id.as_str().unicode_len() == 0 {
        return None;
    }
    let spec = document.get("spec");
    Some(
        KubeSpanPeerRecord {
            label: match text_in(spec, "label") {
                Some(label) => label,
                None => id.clone(),
            },
            endpoint: text_in(spec, "endpoint"),
            state: text_or(text_in(spec, "state"), "unknown"),
            rtt: round_trip_in(get_in(get_in(spec, "lastUsedEndpoint"), "rtt")),
            last_handshake: text_in(spec, "lastHandshakeTime"),
            rx_bytes: match unsigned_in(spec, "receiveBytes") {
                Some(count) => count,
                None => 0,
            },
            tx_bytes: match unsigned_in(spec, "transmitBytes") {
                Some(count) => count,
                None => 0,
            },
            id,
        },
    )
}

/// Reads the KubeSpan peers off the YAML stream that `talosctl get
/// kubespanpeerstatus` prints. Documents that cannot be read or have no
/// id are passed over; the reading itself never fails.
pub fn parse_kubespan_peers_yaml(yaml: &str) -> (result: Result<Vec<KubeSpanPeerRecord>, TalosError>)
    ensures
        result is Ok,
        result->Ok_0.deep_view() == kubespan_peers_of(readable_documents(document_texts(yaml@))),
{
    let documents = read_documents(yaml);
    let mut peers: Vec<KubeSpanPeerRecord> = Vec::new();
    let mut i: usize = 0;
    assert(documents.deep_view().take(0) =~= Seq::empty());
    while i < documents.len()
        invariant
            i <= documents.len(),
            peers.deep_view() == kubespan_peers_of(documents.deep_view().take(i as int)),
        decreases documents.len() - i,
    {
        let ghost before = peers.deep_view();
        proof {
            let prefix = documents.deep_view().take(i + 1);
            assert(prefix.drop_last() =~= documents.deep_view().take(i as int));
            assert(prefix.last() == documents@[i as int]@);
        }
        match kubespan_peer_from_document(&documents[i]) {
            Some(found) => {
                peers.push(found);
                assert(peers.deep_view() =~= before.push(found@));
            },
            None => {},
        }
        i += 1;
    }
    assert(documents.deep_view().take(documents.len() as int) =~= documents.deep_view());
    Ok(peers)
}

/// Reads the KubeSpan peers of a node off the outcome of `talosctl get
/// kubespanpeerstatus --nodes <node> -o yaml`.
pub fn get_kubespan_peers(outcome: Result<String, TalosError>) -> (result: Result<
    Vec<KubeSpanPeerRecord>,
    TalosError,
>)
    ensures
        match outcome {
            Ok(output) => result is Ok && result->Ok_0.deep_view() == kubespan_peers_of(
                readable_documents(document_texts(output@)),
            ),
            Err(error) => result is Err && result->Err_0 == error,
        },
{
    match outcome {
        Ok(output) => parse_kubespan_peers_yaml(output.as_str()),
        Err(error) => Err(error),
    }
}

} // verus!
