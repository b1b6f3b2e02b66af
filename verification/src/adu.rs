//! The update-metadata documents: the device inventory and the identity of the
//! update agent, built once from the agent's configuration and the version line.

use crate::fields::{
    all_separators, fields_of, is_word, law_line_of_two_words, law_word_adds_one_field,
    split_fields,
};
use crate::json::{json_strings, json_text_strings, parse_document, string_at};
use vstd::prelude::*;
use vstd::string::StringExecFns;

verus! {

/// The device inventory.
#[derive(Clone, Debug, PartialEq, Eq)]
pub struct DeviceInformation {
    pub discriminator: String,
    pub manufacturer: String,
    pub model: String,
    pub os_name: String,
    pub sw_version: String,
    pub processor_architecture: String,
    pub processor_manufacturer: String,
    pub total_memory: u32,
    pub total_storage: u32,
}

pub ghost struct DeviceInformationView {
    pub discriminator: Seq<char>,
    pub manufacturer: Seq<char>,
    pub model: Seq<char>,
    pub os_name: Seq<char>,
    pub sw_version: Seq<char>,
    pub processor_architecture: Seq<char>,
    pub processor_manufacturer: Seq<char>,
    pub total_memory: u32,
    pub total_storage: u32,
}

impl View for DeviceInformation {
    type V = DeviceInformationView;

    open spec fn view(&self) -> DeviceInformationView {
        DeviceInformationView {
            discriminator: self.discriminator@,
            manufacturer: self.manufacturer@,
            model: self.model@,
            os_name: self.os_name@,
            sw_version: self.sw_version@,
            processor_architecture: self.processor_architecture@,
            processor_manufacturer: self.processor_manufacturer@,
            total_memory: self.total_memory,
            total_storage: self.total_storage,
        }
    }
}

impl DeviceInformation {
    /// A copy with the same contents.
    pub fn duplicate(&self) -> (copy: DeviceInformation)
        ensures
            copy@ == self@,
    {
        DeviceInformation {
            discriminator: self.discriminator.clone(),
            manufacturer: self.manufacturer.clone(),
            model: self.model.clone(),
            os_name: self.os_name.clone(),
            sw_version: self.sw_version.clone(),
            processor_architecture: self.processor_architecture.clone(),
            processor_manufacturer: self.processor_manufacturer.clone(),
            total_memory: self.total_memory,
            total_storage: self.total_storage,
        }
    }
}

/// What the update service matches an update against.
#[derive(Clone, Debug, PartialEq, Eq)]
pub struct DeviceProperties {
    pub manufacturer: String,
    pub model: String,
    pub compatibilityid: String,
    pub contract_model_id: String,
    pub adu_ver: String,
}

/// The update agent as it presents itself.
#[derive(Clone, Debug, PartialEq, Eq)]
pub struct Agent {
    pub device_properties: DeviceProperties,
    pub compat_property_names: String,
}

/// The identity of the update agent.
#[derive(Clone, Debug, PartialEq, Eq)]
pub struct DeviceUpdate {
    pub discriminator: String,
    pub agent: Agent,
}

pub ghost struct DeviceUpdateView {
    pub discriminator: Seq<char>,
    pub manufacturer: Seq<char>,
    pub model: Seq<char>,
    pub compatibilityid: Seq<char>,
    pub contract_model_id: Seq<char>,
    pub adu_ver: Seq<char>,
    pub compat_property_names: Seq<char>,
}

impl View for DeviceUpdate {
    type V = DeviceUpdateView;

    open spec fn view(&self) -> DeviceUpdateView {
        DeviceUpdateView {
            discriminator: self.discriminator@,
            manufacturer: self.agent.device_properties.manufacturer@,
            model: self.agent.device_properties.model@,
            compatibilityid: self.agent.device_properties.compatibilityid@,
            contract_model_id: self.agent.device_properties.contract_model_id@,
            adu_ver: self.agent.device_properties.adu_ver@,
            compat_property_names: self.agent.compat_property_names@,
        }
    }
}

impl DeviceUpdate {
    /// A copy with the same contents.
    pub fn duplicate(&self) -> (copy: DeviceUpdate)
        ensures
            copy@ == self@,
    {
        DeviceUpdate {
            discriminator: self.discriminator.clone(),
            agent: Agent {
                device_properties: DeviceProperties {
                    manufacturer: self.agent.device_properties.manufacturer.clone(),
                    model: self.agent.device_properties.model.clone(),
                    compatibilityid: self.agent.device_properties.compatibilityid.clone(),
                    contract_model_id: self.agent.device_properties.contract_model_id.clone(),
                    adu_ver: self.agent.device_properties.adu_ver.clone(),
                },
                compat_property_names: self.agent.compat_property_names.clone(),
            },
        }
    }
}

/// A merge patch for the twin's reported properties.
#[derive(Clone, Debug, PartialEq, Eq)]
pub enum ReportedPatch {
    /// The versions of the agent and of the hub client it was built with.
    AgentVersion { module_version: String, sdk_version: String },
    /// The device inventory, under the key `deviceInformation`.
    DeviceInformation(DeviceInformation),
    /// The identity of the update agent, under the key `deviceUpdate`.
    DeviceUpdate(DeviceUpdate),
}

pub ghost enum ReportedPatchView {
    AgentVersion { module_version: Seq<char>, sdk_version: Seq<char> },
    DeviceInformation(DeviceInformationView),
    DeviceUpdate(DeviceUpdateView),
}

impl View for ReportedPatch {
    type V = ReportedPatchView;

    open spec fn view(&self) -> ReportedPatchView {
        match self {
            ReportedPatch::AgentVersion { module_version, sdk_version } => {
                ReportedPatchView::AgentVersion {
                    module_version: module_version@,
                    sdk_version: sdk_version@,
                }
            },
            ReportedPatch::DeviceInformation(info) => ReportedPatchView::DeviceInformation(info@),
            ReportedPatch::DeviceUpdate(update) => ReportedPatchView::DeviceUpdate(update@),
        }
    }
}

/// A string of the agent's configuration.
#[derive(Clone, Copy, Debug, PartialEq, Eq, Structural)]
pub enum ConfigField {
    Manufacturer,
    Model,
    AgentManufacturer,
    AgentModel,
    CompatibilityId,
    CompatPropertyNames,
}

/// Why the documents could not be built.
#[derive(Clone, Copy, Debug, PartialEq, Eq, Structural)]
pub enum AduError {
    /// The configuration is not a JSON document.
    ConfigUnparseable,
    /// The version line does not hold exactly two fields.
    VersionFieldCount,
    /// The configuration holds no string at the place of this field.
    ConfigFieldMissing(ConfigField),
}

/// The name of a field as the configuration writes it, with the names of the
/// objects around it.
pub open spec fn field_name(field: ConfigField) -> Seq<char> {
    match field {
        ConfigField::Manufacturer => "manufacturer"@,
        ConfigField::Model => "model"@,
        ConfigField::AgentManufacturer => "agents.manufacturer"@,
        ConfigField::AgentModel => "agents.model"@,
        ConfigField::CompatibilityId => "agents.additionalDeviceProperties.compatibilityid"@,
        ConfigField::CompatPropertyNames => "compatPropertyNames"@,
    }
}

/// What the log says of a failed construction.
pub open spec fn adu_error_text(e: AduError) -> Seq<char> {
    match e {
        AduError::ConfigUnparseable => "cannot parse du-config.json"@,
        AduError::VersionFieldCount => "sw-versions: unexpected number of entries"@,
        AduError::ConfigFieldMissing(field) => "du-config.json: no string at "@ + field_name(field),
    }
}

impl ConfigField {
    /// The name of the field as the configuration writes it.
    pub fn name(&self) -> (text: &'static str)
        ensures
            text@ == field_name(*self),
    {
        match self {
            ConfigField::Manufacturer => "manufacturer",
            ConfigField::Model => "model",
            ConfigField::AgentManufacturer => "agents.manufacturer",
            ConfigField::AgentModel => "agents.model",
            ConfigField::CompatibilityId => "agents.additionalDeviceProperties.compatibilityid",
            ConfigField::CompatPropertyNames => "compatPropertyNames",
        }
    }
}

impl AduError {
    /// What the log says of this error.
    pub fn message(&self) -> (text: String)
        ensures
            text@ == adu_error_text(*self),
    {
        match self {
            AduError::ConfigUnparseable => "cannot parse du-config.json".to_owned(),
            AduError::VersionFieldCount => "sw-versions: unexpected number of entries".to_owned(),
            AduError::ConfigFieldMissing(field) => {
                "du-config.json: no string at ".to_owned().concat(field.name())
            },
        }
    }
}

/// The JSON pointer at which the configuration holds a field.
pub open spec fn pointer_of(field: ConfigField) -> Seq<char> {
    match field {
        ConfigField::Manufacturer => "/manufacturer"@,
        ConfigField::Model => "/model"@,
        ConfigField::AgentManufacturer => "/agents/manufacturer"@,
        ConfigField::AgentModel => "/agents/model"@,
        ConfigField::CompatibilityId => "/agents/additionalDeviceProperties/compatibilityid"@,
        ConfigField::CompatPropertyNames => "/compatPropertyNames"@,
    }
}

/// The strings that the agent reads from its configuration.
#[derive(Clone, Debug, PartialEq, Eq)]
pub struct DuConfig {
    pub manufacturer: String,
    pub model: String,
    pub agent_manufacturer: String,
    pub agent_model: String,
    pub compatibility_id: String,
    pub compat_property_names: String,
}

pub ghost struct DuConfigView {
    pub manufacturer: Seq<char>,
    pub model: Seq<char>,
    pub agent_manufacturer: Seq<char>,
    pub agent_model: Seq<char>,
    pub compatibility_id: Seq<char>,
    pub compat_property_names: Seq<char>,
}

impl View for DuConfig {
    type V = DuConfigView;

    open spec fn view(&self) -> DuConfigView {
        DuConfigView {
            manufacturer: self.manufacturer@,
            model: self.model@,
            agent_manufacturer: self.agent_manufacturer@,
            agent_model: self.agent_model@,
            compatibility_id: self.compatibility_id@,
            compat_property_names: self.compat_property_names@,
        }
    }
}

/// The string of a field among the strings of a document.
pub open spec fn field_of(strings: Map<Seq<char>, Seq<char>>, field: ConfigField) -> Option<
    Seq<char>,
> {
    if strings.contains_key(pointer_of(field)) {
        Some(strings[pointer_of(field)])
    } else {
        None
    }
}

/// The first field, in the order of `ConfigField`, for which the document holds
/// no string.
pub open spec fn first_missing(strings: Map<Seq<char>, Seq<char>>) -> Option<ConfigField> {
    if field_of(strings, ConfigField::Manufacturer) is None {
        Some(ConfigField::Manufacturer)
    } else if field_of(strings, ConfigField::Model) is None {
        Some(ConfigField::Model)
    } else if field_of(strings, ConfigField::AgentManufacturer) is None {
        Some(ConfigField::AgentManufacturer)
    } else if field_of(strings, ConfigField::AgentModel) is None {
        Some(ConfigField::AgentModel)
    } else if field_of(strings, ConfigField::CompatibilityId) is None {
        Some(ConfigField::CompatibilityId)
    } else if field_of(strings, ConfigField::CompatPropertyNames) is None {
        Some(ConfigField::CompatPropertyNames)
    } else {
        None
    }
}

/// What the strings of a configuration document give: the six strings of the
/// configuration, or the first that is missing.
pub open spec fn config_of(strings: Map<Seq<char>, Seq<char>>) -> Result<DuConfigView, AduError> {
    match first_missing(strings) {
        Some(field) => Err(AduError::ConfigFieldMissing(field)),
        None => Ok(
            DuConfigView {
                manufacturer: field_of(strings, ConfigField::Manufacturer).unwrap(),
                model: field_of(strings, ConfigField::Model).unwrap(),
                agent_manufacturer: field_of(strings, ConfigField::AgentManufacturer).unwrap(),
                agent_model: field_of(strings, ConfigField::AgentModel).unwrap(),
                compatibility_id: field_of(strings, ConfigField::CompatibilityId).unwrap(),
                compat_property_names: field_of(strings, ConfigField::CompatPropertyNames).unwrap(),
            },
        ),
    }
}

/// The JSON pointer of a field, as text.
fn pointer_text(field: ConfigField) -> (text: &'static str)
    ensures
        text@ == pointer_of(field),
{
    match field {
        ConfigField::Manufacturer => "/manufacturer",
        ConfigField::Model => "/model",
        ConfigField::AgentManufacturer => "/agents/manufacturer",
        ConfigField::AgentModel => "/agents/model",
        ConfigField::CompatibilityId => "/agents/additionalDeviceProperties/compatibilityid",
        ConfigField::CompatPropertyNames => "/compatPropertyNames",
    }
}

/// Reads one field of the configuration.
fn read_field(doc: &serde_json::Value, field: ConfigField) -> (r: Result<String, AduError>)
    ensures
        match r {
            Ok(s) => field_of(json_strings(*doc), field) == Some(s@),
            Err(e) => field_of(json_strings(*doc), field) is None && e
                == AduError::ConfigFieldMissing(field),
        },
{
    match string_at(doc, pointer_text(field)) {
        Some(s) => Ok(s),
        None => Err(AduError::ConfigFieldMissing(field)),
    }
}

impl DuConfig {
    /// Reads the six strings from a configuration document. Fails with the first
    /// field, in the order of `ConfigField`, at whose place the document holds no
    /// string.
    pub fn from_document(doc: &serde_json::Value) -> (r: Result<DuConfig, AduError>)
        ensures
            match r {
                Ok(config) => config_of(json_strings(*doc)) == Ok::<DuConfigView, AduError>(
                    config@,
                ),
                Err(e) => config_of(json_strings(*doc)) == Err::<DuConfigView, AduError>(e),
            },
    {
        let manufacturer = read_field(doc, ConfigField::Manufacturer)?;
        let model = read_field(doc, ConfigField::Model)?;
        let agent_manufacturer = read_field(doc, ConfigField::AgentManufacturer)?;
        let agent_model = read_field(doc, ConfigField::AgentModel)?;
        let compatibility_id = read_field(doc, ConfigField::CompatibilityId)?;
        let compat_property_names = read_field(doc, ConfigField::CompatPropertyNames)?;
        Ok(
            DuConfig {
                manufacturer,
                model,
                agent_manufacturer,
                agent_model,
                compatibility_id,
                compat_property_names,
            },
        )
    }
}

/// The operating system's name and the software version of a version line:
/// its two fields, where it has exactly two.
pub open spec fn version_fields(text: Seq<char>) -> Result<(Seq<char>, Seq<char>), AduError> {
    if fields_of(text).len() == 2 {
        Ok((fields_of(text)[0], fields_of(text)[1]))
    } else {
        Err(AduError::VersionFieldCount)
    }
}

/// A version line of two words with separators between them gives the first as
/// the operating system's name and the second as the software version.
pub proof fn law_version_line_of_two_words(os_name: Seq<char>, gap: Seq<char>, sw_version: Seq<char>)
    requires
        is_word(os_name),
        all_separators(gap),
        gap.len() > 0,
        is_word(sw_version),
    ensures
        version_fields(os_name + gap + sw_version) == Ok::<(Seq<char>, Seq<char>), AduError>(
            (os_name, sw_version),
        ),
{
    let empty = Seq::<char>::empty();
    law_line_of_two_words(empty, os_name, gap, sw_version, empty);
    assert(empty + os_name + gap + sw_version + empty =~= os_name + gap + sw_version);
}

/// A version line of three words is turned down.
pub proof fn law_version_line_of_three_words(
    first: Seq<char>,
    gap: Seq<char>,
    second: Seq<char>,
    other_gap: Seq<char>,
    third: Seq<char>,
)
    requires
        is_word(first),
        all_separators(gap),
        gap.len() > 0,
        is_word(second),
        all_separators(other_gap),
        other_gap.len() > 0,
        is_word(third),
    ensures
        version_fields(first + gap + second + other_gap + third) == Err::<
            (Seq<char>, Seq<char>),
            AduError,
        >(AduError::VersionFieldCount),
{
    let empty = Seq::<char>::empty();
    law_line_of_two_words(empty, first, gap, second, other_gap);
    let line = first + gap + second + other_gap;
    assert(empty + first + gap + second + other_gap =~= line);
    assert(line.last() == other_gap.last());
    law_word_adds_one_field(line, third);
}

/// Reads the operating system's name and the software version from a version
/// line. Fails unless the line holds exactly two whitespace-separated fields.
pub fn parse_sw_versions(text: &str) -> (r: Result<(String, String), AduError>)
    ensures
        match r {
            Ok((os_name, sw_version)) => version_fields(text@) == Ok::<
                (Seq<char>, Seq<char>),
                AduError,
            >((os_name@, sw_version@)),
            Err(e) => version_fields(text@) == Err::<(Seq<char>, Seq<char>), AduError>(e),
        },
{
    let fields = split_fields(text);
    if fields.len() != 2 {
        return Err(AduError::VersionFieldCount);
    }
    assert(fields@[0]@ == fields_of(text@)[0]);
    assert(fields@[1]@ == fields_of(text@)[1]);
    let sw_version = fields[1].clone();
    let os_name = fields[0].clone();
    Ok((os_name, sw_version))
}

/// The two documents that are built once at startup.
#[derive(Clone, Debug, PartialEq, Eq)]
pub struct Adu {
    pub device_info: DeviceInformation,
    pub device_update: DeviceUpdate,
}

pub ghost struct AduView {
    pub device_info: DeviceInformationView,
    pub device_update: DeviceUpdateView,
}

impl View for Adu {
    type V = AduView;

    open spec fn view(&self) -> AduView {
        AduView { device_info: self.device_info@, device_update: self.device_update@ }
    }
}

/// The documents for a configuration, an operating system's name and a software
/// version. The processor and the totals of memory and storage are fixed values.
pub open spec fn documents_of(config: DuConfigView, os_name: Seq<char>, sw_version: Seq<char>) -> AduView {
    AduView {
        device_info: DeviceInformationView {
            discriminator: "c"@,
            manufacturer: config.manufacturer,
            model: config.model,
            os_name,
            sw_version,
            processor_architecture: "aarch64"@,
            processor_manufacturer: "ARM"@,
            total_memory: 123456,
            total_storage: 654321,
        },
        device_update: DeviceUpdateView {
            discriminator: "c"@,
            manufacturer: config.agent_manufacturer,
            model: config.agent_model,
            compatibilityid: config.compatibility_id,
            contract_model_id: "dtmi:azure:iot:deviceUpdateContractModel;3"@,
            adu_ver: "DU;agent/1.1.0"@,
            compat_property_names: config.compat_property_names,
        },
    }
}

/// What construction gives for the strings of a configuration (`None` where its
/// text is no JSON document) and a version line. The version line is judged
/// before the fields of the configuration.
pub open spec fn adu_of(strings: Option<Map<Seq<char>, Seq<char>>>, sw_versions: Seq<char>) -> Result<
    AduView,
    AduError,
> {
    match strings {
        None => Err(AduError::ConfigUnparseable),
        Some(strings) => match version_fields(sw_versions) {
            Err(e) => Err(e),
            Ok((os_name, sw_version)) => match config_of(strings) {
                Err(e) => Err(e),
                Ok(config) => Ok(documents_of(config, os_name, sw_version)),
            },
        },
    }
}

/// A configuration that holds its six strings and a version line of two words
/// give documents, and the device inventory names the first word as the
/// operating system and the second as the software version.
pub proof fn law_inventory_names_the_versions(
    strings: Map<Seq<char>, Seq<char>>,
    os_name: Seq<char>,
    gap: Seq<char>,
    sw_version: Seq<char>,
)
    requires
        first_missing(strings) is None,
        is_word(os_name),
        all_separators(gap),
        gap.len() > 0,
        is_word(sw_version),
    ensures
        adu_of(Some(strings), os_name + gap + sw_version) is Ok,
        adu_of(Some(strings), os_name + gap + sw_version).unwrap().device_info.os_name == os_name,
        adu_of(Some(strings), os_name + gap + sw_version).unwrap().device_info.sw_version
            == sw_version,
{
    law_version_line_of_two_words(os_name, gap, sw_version);
}

impl Adu {
    /// Builds the documents from the text of the agent's configuration and the
    /// version line.
    pub fn new(du_config: &str, sw_versions: &str) -> (r: Result<Adu, AduError>)
        ensures
            match r {
                Ok(adu) => adu_of(json_text_strings(du_config@), sw_versions@) == Ok::<AduView, AduError>(
                    adu@,
                ),
                Err(e) => adu_of(json_text_strings(du_config@), sw_versions@) == Err::<AduView, AduError>(
                    e,
                ),
            },
    {
        match parse_document(du_config) {
            Ok(doc) => Adu::from_document(&doc, sw_versions),
            Err(_) => Err(AduError::ConfigUnparseable),
        }
    }

    /// Builds the documents from a parsed configuration and the version line.
    pub fn from_document(doc: &serde_json::Value, sw_versions: &str) -> (r: Result<Adu, AduError>)
        ensures
            match r {
                Ok(adu) => adu_of(Some(json_strings(*doc)), sw_versions@) == Ok::<AduView, AduError>(adu@),
                Err(e) => adu_of(Some(json_strings(*doc)), sw_versions@) == Err::<AduView, AduError>(e),
            },
    {
        let (os_name, sw_version) = parse_sw_versions(sw_versions)?;
        let config = DuConfig::from_document(doc)?;
        Ok(Adu::from_parts(config, os_name, sw_version))
    }

    /// Builds the documents from the strings of the configuration, the operating
    /// system's name and the software version.
    pub fn from_parts(config: DuConfig, os_name: String, sw_version: String) -> (adu: Adu)
        ensures
            adu@ == documents_of(config@, os_name@, sw_version@),
    {
        let device_info = DeviceInformation {
            discriminator: "c".to_owned(),
            manufacturer: config.manufacturer,
            model: config.model,
            os_name,
            sw_version,
            processor_architecture: "aarch64".to_owned(),
            processor_manufacturer: "ARM".to_owned(),
            total_memory: 123456,
            total_storage: 654321,
        };
        let device_properties = DeviceProperties {
            manufacturer: config.agent_manufacturer,
            model: config.agent_model,
            compatibilityid: config.compatibility_id,
            contract_model_id: "dtmi:azure:iot:deviceUpdateContractModel;3".to_owned(),
            adu_ver: "DU;agent/1.1.0".to_owned(),
        };
        let agent = Agent {
            device_properties,
            compat_property_names: config.compat_property_names,
        };
        let device_update = DeviceUpdate { discriminator: "c".to_owned(), agent };
        Adu { device_info, device_update }
    }

    /// The initial report: the device inventory, then the identity of the update
    /// agent, for the caller to enqueue in that order.
    pub fn report_initial_state(&self) -> (patches: (ReportedPatch, ReportedPatch))
        ensures
            patches.0@ == ReportedPatchView::DeviceInformation(self@.device_info),
            patches.1@ == ReportedPatchView::DeviceUpdate(self@.device_update),
    {
        (self.report_device_info(), self.report_device_update())
    }

    /// The patch that reports the device inventory.
    pub fn report_device_info(&self) -> (patch: ReportedPatch)
        ensures
            patch@ == ReportedPatchView::DeviceInformation(self@.device_info),
    {
        ReportedPatch::DeviceInformation(self.device_info.duplicate())
    }

    /// The patch that reports the identity of the update agent.
    pub fn report_device_update(&self) -> (patch: ReportedPatch)
        ensures
            patch@ == ReportedPatchView::DeviceUpdate(self@.device_update),
    {
        ReportedPatch::DeviceUpdate(self.device_update.duplicate())
    }
}

} // verus!
