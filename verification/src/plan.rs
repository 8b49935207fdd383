//! The plan of the system information report: its sections, the management
//! classes that each section queries, and the properties that it prints of
//! each class.

use vstd::prelude::*;

verus! {

/// How the value of a property is printed.
#[derive(Debug, Clone, Copy, PartialEq, Eq, Structural)]
pub enum ValueFormat {
    /// By the rules for its kind of value.
    Plain,
    /// A number of bytes, printed in GiB.
    MemoryGb,
    /// A number of KiB, printed in MiB.
    CacheMb,
}

/// What the contracts say of one property of the plan.
pub ghost struct PropertyModel {
    pub property_name: Seq<char>,
    pub display_name: Seq<char>,
    pub format: ValueFormat,
}

/// One property that the report prints: the name under which the class
/// holds it, the name under which it is printed, and how its value is
/// printed.
#[derive(Debug)]
pub struct WmiProperty {
    pub property_name: &'static str,
    pub display_name: &'static str,
    pub format: ValueFormat,
}

impl View for WmiProperty {
    type V = PropertyModel;

    open spec fn view(&self) -> PropertyModel {
        PropertyModel {
            property_name: self.property_name@,
            display_name: self.display_name@,
            format: self.format,
        }
    }
}

impl WmiProperty {
    /// A property that is printed by the rules for its kind of value.
    pub fn new(property_name: &'static str, display_name: &'static str) -> (property: WmiProperty)
        ensures
            property@ == (PropertyModel {
                property_name: property_name@,
                display_name: display_name@,
                format: ValueFormat::Plain,
            }),
    {
        WmiProperty { property_name, display_name, format: ValueFormat::Plain }
    }

    /// The same property, printed in another way.
    pub fn with_formatter(self, format: ValueFormat) -> (property: WmiProperty)
        ensures
            property@ == (PropertyModel {
                property_name: self@.property_name,
                display_name: self@.display_name,
                format,
            }),
    {
        WmiProperty {
            property_name: self.property_name,
            display_name: self.display_name,
            format,
        }
    }
}

/// What the contracts say of one query of the plan.
pub ghost struct QueryModel {
    pub class_name: Seq<char>,
    pub section_title: Option<Seq<char>>,
    pub condition: Option<Seq<char>>,
    pub properties: Seq<PropertyModel>,
}

/// One query of the plan: the class, the title of the part of the section
/// that it fills, the condition that its objects meet, and the properties to
/// print.
#[derive(Debug)]
pub struct WmiQuery {
    pub class_name: &'static str,
    pub section_title: Option<&'static str>,
    pub condition: Option<&'static str>,
    pub properties: Vec<WmiProperty>,
}

impl View for WmiQuery {
    type V = QueryModel;

    open spec fn view(&self) -> QueryModel {
        QueryModel {
            class_name: self.class_name@,
            section_title: match self.section_title {
                Some(t) => Some(t@),
                None => None,
            },
            condition: match self.condition {
                Some(c) => Some(c@),
                None => None,
            },
            properties: Seq::new(self.properties@.len(), |k: int| self.properties@[k]@),
        }
    }
}

/// What the contracts say of one section of the plan.
pub ghost struct SectionModel {
    pub title: Seq<char>,
    pub queries: Seq<QueryModel>,
}

/// One section of the plan: its title and its queries, in the order in which
/// they are printed.
#[derive(Debug)]
pub struct ReportSection {
    pub title: &'static str,
    pub queries: Vec<WmiQuery>,
}

impl View for ReportSection {
    type V = SectionModel;

    open spec fn view(&self) -> SectionModel {
        SectionModel {
            title: self.title@,
            queries: Seq::new(self.queries@.len(), |k: int| self.queries@[k]@),
        }
    }
}

/// A property of the plan.
pub open spec fn property(property_name: Seq<char>, display_name: Seq<char>, format: ValueFormat)
    -> PropertyModel {
    PropertyModel { property_name, display_name, format }
}

/// The section on the operating system, the firmware and the computer, as the contracts see it.
pub open spec fn system_summary_model() -> SectionModel {
    SectionModel {
        title: "System Summary"@,
        queries: seq![
            QueryModel {
                class_name: "Win32_OperatingSystem"@,
                section_title: None,
                condition: None,
                properties: seq![
                    property("Caption"@, "OS Name"@, ValueFormat::Plain),
                    property("Version"@, "Version"@, ValueFormat::Plain),
                    property("BuildNumber"@, "Build"@, ValueFormat::Plain),
                    property("OSArchitecture"@, "Architecture"@, ValueFormat::Plain),
                    property("SerialNumber"@, "Serial"@, ValueFormat::Plain),
                    property("InstallDate"@, "Install Date"@, ValueFormat::Plain),
                ],
            },
            QueryModel {
                class_name: "Win32_BIOS"@,
                section_title: None,
                condition: None,
                properties: seq![
                    property("Manufacturer"@, "BIOS Vendor"@, ValueFormat::Plain),
                    property("Name"@, "BIOS Version"@, ValueFormat::Plain),
                    property("ReleaseDate"@, "Release Date"@, ValueFormat::Plain),
                    property("SMBIOSBIOSVersion"@, "SMBIOS Version"@, ValueFormat::Plain),
                ],
            },
            QueryModel {
                class_name: "Win32_ComputerSystem"@,
                section_title: None,
                condition: None,
                properties: seq![
                    property("Manufacturer"@, "System Manufacturer"@, ValueFormat::Plain),
                    property("Model"@, "System Model"@, ValueFormat::Plain),
                    property("SystemType"@, "System Type"@, ValueFormat::Plain),
                    property("TotalPhysicalMemory"@, "Total Physical Memory (GB)"@, ValueFormat::MemoryGb),
                ],
            },
        ],
    }
}

/// The section on the memory devices and the processors, as the contracts see it.
pub open spec fn hardware_resources_model() -> SectionModel {
    SectionModel {
        title: "Hardware Resources"@,
        queries: seq![
            QueryModel {
                class_name: "Win32_PhysicalMemory"@,
                section_title: Some("Memory Devices"@),
                condition: None,
                properties: seq![
                    property("Capacity"@, "Memory Capacity (GB)"@, ValueFormat::MemoryGb),
                    property("Speed"@, "Speed (MHz)"@, ValueFormat::Plain),
                    property("Manufacturer"@, "Manufacturer"@, ValueFormat::Plain),
                ],
            },
            QueryModel {
                class_name: "Win32_Processor"@,
                section_title: Some("Processor Details"@),
                condition: None,
                properties: seq![
                    property("Name"@, "Processor"@, ValueFormat::Plain),
                    property("NumberOfCores"@, "Cores"@, ValueFormat::Plain),
                    property("NumberOfLogicalProcessors"@, "Logical Processors"@, ValueFormat::Plain),
                    property("MaxClockSpeed"@, "Max Speed (MHz)"@, ValueFormat::Plain),
                    property("L2CacheSize"@, "L2 Cache (MB)"@, ValueFormat::CacheMb),
                    property("L3CacheSize"@, "L3 Cache (MB)"@, ValueFormat::CacheMb),
                ],
            },
        ],
    }
}

/// The section on the display adapters and the disk drives, as the contracts see it.
pub open spec fn components_model() -> SectionModel {
    SectionModel {
        title: "Components"@,
        queries: seq![
            QueryModel {
                class_name: "Win32_VideoController"@,
                section_title: Some("Display"@),
                condition: None,
                properties: seq![
                    property("Name"@, "Adapter"@, ValueFormat::Plain),
                    property("AdapterRAM"@, "VRAM (GB)"@, ValueFormat::MemoryGb),
                    property("DriverVersion"@, "Driver Version"@, ValueFormat::Plain),
                    property("VideoProcessor"@, "GPU Chip"@, ValueFormat::Plain),
                ],
            },
            QueryModel {
                class_name: "Win32_DiskDrive"@,
                section_title: Some("Storage"@),
                condition: None,
                properties: seq![
                    property("Model"@, "Disk Model"@, ValueFormat::Plain),
                    property("Size"@, "Capacity (GB)"@, ValueFormat::MemoryGb),
                    property("InterfaceType"@, "Interface"@, ValueFormat::Plain),
                ],
            },
        ],
    }
}

/// The section on the installed updates and the network adapters, as the contracts see it.
pub open spec fn software_environment_model() -> SectionModel {
    SectionModel {
        title: "Software Environment"@,
        queries: seq![
            QueryModel {
                class_name: "Win32_QuickFixEngineering"@,
                section_title: Some("Windows Updates"@),
                condition: None,
                properties: seq![
                    property("HotFixID"@, "Update"@, ValueFormat::Plain),
                    property("InstalledOn"@, "Install Date"@, ValueFormat::Plain),
                    property("Description"@, "Description"@, ValueFormat::Plain),
                ],
            },
            QueryModel {
                class_name: "Win32_NetworkAdapterConfiguration"@,
                section_title: Some("Network"@),
                condition: Some("IPEnabled = TRUE"@),
                properties: seq![
                    property("Description"@, "Adapter"@, ValueFormat::Plain),
                    property("IPAddress"@, "IP Address"@, ValueFormat::Plain),
                    property("MACAddress"@, "MAC"@, ValueFormat::Plain),
                ],
            },
        ],
    }
}

/// The section on the operating system, the firmware and the computer.
pub fn system_summary() -> (section: ReportSection)
    ensures
        section@ == system_summary_model(),
{
    let mut queries: Vec<WmiQuery> = Vec::new();
    let mut properties: Vec<WmiProperty> = Vec::new();
    properties.push(WmiProperty::new("Caption", "OS Name"));
    properties.push(WmiProperty::new("Version", "Version"));
    properties.push(WmiProperty::new("BuildNumber", "Build"));
    properties.push(WmiProperty::new("OSArchitecture", "Architecture"));
    properties.push(WmiProperty::new("SerialNumber", "Serial"));
    properties.push(WmiProperty::new("InstallDate", "Install Date"));
    let query = WmiQuery {
        class_name: "Win32_OperatingSystem",
        section_title: None,
        condition: None,
        properties,
    };
    assert(query@.properties =~= system_summary_model().queries[0].properties);
    queries.push(query);
    let mut properties: Vec<WmiProperty> = Vec::new();
    properties.push(WmiProperty::new("Manufacturer", "BIOS Vendor"));
    properties.push(WmiProperty::new("Name", "BIOS Version"));
    properties.push(WmiProperty::new("ReleaseDate", "Release Date"));
    properties.push(WmiProperty::new("SMBIOSBIOSVersion", "SMBIOS Version"));
    let query = WmiQuery {
        class_name: "Win32_BIOS",
        section_title: None,
        condition: None,
        properties,
    };
    assert(query@.properties =~= system_summary_model().queries[1].properties);
    queries.push(query);
    let mut properties: Vec<WmiProperty> = Vec::new();
    properties.push(WmiProperty::new("Manufacturer", "System Manufacturer"));
    properties.push(WmiProperty::new("Model", "System Model"));
    properties.push(WmiProperty::new("SystemType", "System Type"));
    properties.push(
        WmiProperty::new("TotalPhysicalMemory", "Total Physical Memory (GB)").with_formatter(ValueFormat::MemoryGb),
    );
    let query = WmiQuery {
        class_name: "Win32_ComputerSystem",
        section_title: None,
        condition: None,
        properties,
    };
    assert(query@.properties =~= system_summary_model().queries[2].properties);
    queries.push(query);
    let section = ReportSection { title: "System Summary", queries };
    assert(section@.queries =~= system_summary_model().queries);
    section
}

/// The section on the memory devices and the processors.
pub fn hardware_resources() -> (section: ReportSection)
    ensures
        section@ == hardware_resources_model(),
{
    let mut queries: Vec<WmiQuery> = Vec::new();
    let mut properties: Vec<WmiProperty> = Vec::new();
    properties.push(
        WmiProperty::new("Capacity", "Memory Capacity (GB)").with_formatter(ValueFormat::MemoryGb),
    );
    properties.push(WmiProperty::new("Speed", "Speed (MHz)"));
    properties.push(WmiProperty::new("Manufacturer", "Manufacturer"));
    let query = WmiQuery {
        class_name: "Win32_PhysicalMemory",
        section_title: Some("Memory Devices"),
        condition: None,
        properties,
    };
    assert(query@.properties =~= hardware_resources_model().queries[0].properties);
    queries.push(query);
    let mut properties: Vec<WmiProperty> = Vec::new();
    properties.push(WmiProperty::new("Name", "Processor"));
    properties.push(WmiProperty::new("NumberOfCores", "Cores"));
    properties.push(WmiProperty::new("NumberOfLogicalProcessors", "Logical Processors"));
    properties.push(WmiProperty::new("MaxClockSpeed", "Max Speed (MHz)"));
    properties.push(
        WmiProperty::new("L2CacheSize", "L2 Cache (MB)").with_formatter(ValueFormat::CacheMb),
    );
    properties.push(
        WmiProperty::new("L3CacheSize", "L3 Cache (MB)").with_formatter(ValueFormat::CacheMb),
    );
    let query = WmiQuery {
        class_name: "Win32_Processor",
        section_title: Some("Processor Details"),
        condition: None,
        properties,
    };
    assert(query@.properties =~= hardware_resources_model().queries[1].properties);
    queries.push(query);
    let section = ReportSection { title: "Hardware Resources", queries };
    assert(section@.queries =~= hardware_resources_model().queries);
    section
}

/// The section on the display adapters and the disk drives.
pub fn components() -> (section: ReportSection)
    ensures
        section@ == components_model(),
{
    let mut queries: Vec<WmiQuery> = Vec::new();
    let mut properties: Vec<WmiProperty> = Vec::new();
    properties.push(WmiProperty::new("Name", "Adapter"));
    properties.push(
        WmiProperty::new("AdapterRAM", "VRAM (GB)").with_formatter(ValueFormat::MemoryGb),
    );
    properties.push(WmiProperty::new("DriverVersion", "Driver Version"));
    properties.push(WmiProperty::new("VideoProcessor", "GPU Chip"));
    let query = WmiQuery {
        class_name: "Win32_VideoController",
        section_title: Some("Display"),
        condition: None,
        properties,
    };
    assert(query@.properties =~= components_model().queries[0].properties);
    queries.push(query);
    let mut properties: Vec<WmiProperty> = Vec::new();
    properties.push(WmiProperty::new("Model", "Disk Model"));
    properties.push(
        WmiProperty::new("Size", "Capacity (GB)").with_formatter(ValueFormat::MemoryGb),
    );
    properties.push(WmiProperty::new("InterfaceType", "Interface"));
    let query = WmiQuery {
        class_name: "Win32_DiskDrive",
        section_title: Some("Storage"),
        condition: None,
        properties,
    };
    assert(query@.properties =~= components_model().queries[1].properties);
    queries.push(query);
    let section = ReportSection { title: "Components", queries };
    assert(section@.queries =~= components_model().queries);
    section
}

/// The section on the installed updates and the network adapters.
pub fn software_environment() -> (section: ReportSection)
    ensures
        section@ == software_environment_model(),
{
    let mut queries: Vec<WmiQuery> = Vec::new();
    let mut properties: Vec<WmiProperty> = Vec::new();
    properties.push(WmiProperty::new("HotFixID", "Update"));
    properties.push(WmiProperty::new("InstalledOn", "Install Date"));
    properties.push(WmiProperty::new("Description", "Description"));
    let query = WmiQuery {
        class_name: "Win32_QuickFixEngineering",
        section_title: Some("Windows Updates"),
        condition: None,
        properties,
    };
    assert(query@.properties =~= software_environment_model().queries[0].properties);
    queries.push(query);
    let mut properties: Vec<WmiProperty> = Vec::new();
    properties.push(WmiProperty::new("Description", "Adapter"));
    properties.push(WmiProperty::new("IPAddress", "IP Address"));
    properties.push(WmiProperty::new("MACAddress", "MAC"));
    let query = WmiQuery {
        class_name: "Win32_NetworkAdapterConfiguration",
        section_title: Some("Network"),
        condition: Some("IPEnabled = TRUE"),
        properties,
    };
    assert(query@.properties =~= software_environment_model().queries[1].properties);
    queries.push(query);
    let section = ReportSection { title: "Software Environment", queries };
    assert(section@.queries =~= software_environment_model().queries);
    section
}

/// The sections of the report that are filled from management classes, in
/// the order in which they are printed.
pub open spec fn sections_model() -> Seq<SectionModel> {
    seq![
        system_summary_model(),
        hardware_resources_model(),
        components_model(),
        software_environment_model(),
    ]
}

/// The sections of the report that are filled from management classes, in
/// the order in which they are printed.
pub fn report_sections() -> (sections: Vec<ReportSection>)
    ensures
        Seq::new(sections@.len(), |k: int| sections@[k]@) == sections_model(),
{
    let mut sections: Vec<ReportSection> = Vec::new();
    sections.push(system_summary());
    sections.push(hardware_resources());
    sections.push(components());
    sections.push(software_environment());
    sections
}

} // verus!
