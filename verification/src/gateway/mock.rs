use std::sync::Arc;
use vstd::prelude::*;

use crate::diagnostic::diagnostic::{DiagnosticBuilder, EntityContext};
use crate::diagnostic::entities::{Entity, EntityView};
use crate::gateway::components::{
    entry_list_view, table_after, DataEntry, DataEntryView, MockComponent, MockDataService,
};
use crate::json::{json_from_text, parsed_json};
use crate::models::data::{DataCategory, DataCategoryView, ValueMetaData, ValueMetaDataView};

verus! {

// ----------------------------------------------------------------------------
// Building blocks
// ----------------------------------------------------------------------------

/// One string.
fn strs1(a: &str) -> (r: Vec<String>)
    ensures
        r.deep_view() == seq![a@],
{
    let mut r: Vec<String> = Vec::new();
    r.push(String::from_str(a));
    assert(r.deep_view() =~= seq![a@]);
    r
}

/// Two strings, in order.
fn strs2(a: &str, b: &str) -> (r: Vec<String>)
    ensures
        r.deep_view() == seq![a@, b@],
{
    let mut r: Vec<String> = Vec::new();
    r.push(String::from_str(a));
    r.push(String::from_str(b));
    assert(r.deep_view() =~= seq![a@, b@]);
    r
}

/// The view of a data entry of the mock tables.
pub open spec fn entry_spec(
    id: Seq<char>,
    name: Seq<char>,
    category: DataCategoryView,
    groups: Seq<Seq<char>>,
    tags: Seq<Seq<char>>,
    json: Seq<char>,
    writable: bool,
) -> (Seq<char>, DataEntryView) {
    (
        id,
        DataEntryView {
            metadata: ValueMetaDataView { id, name, translation_id: None, category, groups, tags },
            value: parsed_json(json),
            writable,
        },
    )
}

/// A data entry under its identifier, with the value parsed from JSON text.
fn entry(
    id: &str,
    name: &str,
    category: DataCategory,
    groups: Vec<String>,
    tags: Vec<String>,
    json: &str,
    writable: bool,
) -> (r: (String, DataEntry))
    ensures
        (r.0@, r.1@) == entry_spec(
            id@,
            name@,
            category@,
            groups.deep_view(),
            tags.deep_view(),
            json@,
            writable,
        ),
{
    let metadata = ValueMetaData {
        id: String::from_str(id),
        name: String::from_str(name),
        translation_id: None,
        category,
        groups,
        tags,
    };
    (String::from_str(id), DataEntry { metadata, value: json_from_text(json), writable })
}

/// The view of a vendor category.
pub open spec fn vendor(name: Seq<char>) -> DataCategoryView {
    DataCategoryView::Vendor(name)
}

fn vendor_category(name: &str) -> (r: DataCategory)
    ensures
        r@ == vendor(name@),
{
    DataCategory::Vendor(String::from_str(name))
}


// ----------------------------------------------------------------------------
// Engine
// ----------------------------------------------------------------------------

/// The view of the engine control unit.
pub open spec fn engine_view() -> EntityView {
    EntityView { id: "engine"@, name: "Engine Control Unit"@, tags: seq!["OBD"@, "powertrain"@], translation_id: None }
}

/// The engine control unit.
fn create_engine_component() -> (r: MockComponent)
    ensures
        r.entity_view() == engine_view(),
{
    MockComponent::new(String::from_str("engine"), String::from_str("Engine Control Unit"), strs2("OBD", "powertrain"))
}

/// The data of the engine control unit, in the order it is added.
pub open spec fn engine_entries() -> Seq<(Seq<char>, DataEntryView)> {
    seq![
        entry_spec("temperature"@, "Engine Temperature"@, DataCategoryView::CurrentData, seq!["engine"@, "temperature"@], seq!["celsius"@], "{\"value\": 90.5}"@, true),
        entry_spec("rpm"@, "Engine RPM"@, DataCategoryView::CurrentData, seq!["engine"@, "performance"@], seq!["rpm"@], "{\"value\": 2500}"@, true),
        entry_spec("oil_pressure"@, "Oil Pressure"@, DataCategoryView::CurrentData, seq!["engine"@, "fluids"@], seq!["pressure"@], "{\"value\": 45}"@, true),
        entry_spec("serial_number"@, "Engine Serial Number"@, DataCategoryView::IdentData, seq!["engine"@, "identification"@], seq!["serial"@], "\"ENG-2024-001\""@, false),
        entry_spec("turbo_boost"@, "Turbocharger Boost Pressure"@, vendor("x-liebherr-engine"@), seq!["engine"@, "turbo"@], seq!["pressure"@, "boost"@], "{\"value\": 18.5, \"max\": 25.0}"@, true),
        entry_spec("def_level"@, "Diesel Exhaust Fluid Level"@, vendor("x-liebherr-aftertreatment"@), seq!["engine"@, "aftertreatment"@], seq!["def"@, "fluid"@], "{\"level\": 75}"@, true)
    ]
}

/// The data service of the engine control unit.
fn create_engine_data_service() -> (r: MockDataService)
    ensures
        r.entries() == table_after(engine_entries()),
{
    let e0 = entry(
        "temperature",
        "Engine Temperature",
        DataCategory::CurrentData,
        strs2("engine", "temperature"),
        strs1("celsius"),
        "{\"value\": 90.5}",
        true,
    );
    assert((e0.0@, e0.1@) == engine_entries()[0]);
    let e1 = entry(
        "rpm",
        "Engine RPM",
        DataCategory::CurrentData,
        strs2("engine", "performance"),
        strs1("rpm"),
        "{\"value\": 2500}",
        true,
    );
    assert((e1.0@, e1.1@) == engine_entries()[1]);
    let e2 = entry(
        "oil_pressure",
        "Oil Pressure",
        DataCategory::CurrentData,
        strs2("engine", "fluids"),
        strs1("pressure"),
        "{\"value\": 45}",
        true,
    );
    assert((e2.0@, e2.1@) == engine_entries()[2]);
    let e3 = entry(
        "serial_number",
        "Engine Serial Number",
        DataCategory::IdentData,
        strs2("engine", "identification"),
        strs1("serial"),
        "\"ENG-2024-001\"",
        false,
    );
    assert((e3.0@, e3.1@) == engine_entries()[3]);
    let e4 = entry(
        "turbo_boost",
        "Turbocharger Boost Pressure",
        vendor_category("x-liebherr-engine"),
        strs2("engine", "turbo"),
        strs2("pressure", "boost"),
        "{\"value\": 18.5, \"max\": 25.0}",
        true,
    );
    assert((e4.0@, e4.1@) == engine_entries()[4]);
    let e5 = entry(
        "def_level",
        "Diesel Exhaust Fluid Level",
        vendor_category("x-liebherr-aftertreatment"),
        strs2("engine", "aftertreatment"),
        strs2("def", "fluid"),
        "{\"level\": 75}",
        true,
    );
    assert((e5.0@, e5.1@) == engine_entries()[5]);
    let data = vec![e0, e1, e2, e3, e4, e5];
    assert(entry_list_view(data@) =~= engine_entries());
    MockDataService::new(data)
}

// ----------------------------------------------------------------------------
// Transmission
// ----------------------------------------------------------------------------

/// The view of the transmission.
pub open spec fn transmission_view() -> EntityView {
    EntityView { id: "transmission"@, name: "Transmission"@, tags: seq!["drivetrain"@], translation_id: None }
}

/// The transmission.
fn create_transmission_component() -> (r: MockComponent)
    ensures
        r.entity_view() == transmission_view(),
{
    MockComponent::new(String::from_str("transmission"), String::from_str("Transmission"), strs1("drivetrain"))
}

/// The data of the transmission, in the order it is added.
pub open spec fn transmission_entries() -> Seq<(Seq<char>, DataEntryView)> {
    seq![
        entry_spec("gear"@, "Current Gear"@, DataCategoryView::CurrentData, seq!["transmission"@, "gearing"@], seq!["gear"@], "{\"current\": 3, \"max\": 6}"@, true),
        entry_spec("fluid_temp"@, "Transmission Fluid Temperature"@, DataCategoryView::CurrentData, seq!["transmission"@, "fluids"@], seq!["temperature"@], "{\"value\": 75}"@, true),
        entry_spec("shift_mode"@, "Shift Mode"@, DataCategoryView::CurrentData, seq!["transmission"@, "control"@], seq!["mode"@], "\"automatic\""@, true),
        entry_spec("part_number"@, "Transmission Part Number"@, DataCategoryView::IdentData, seq!["transmission"@, "identification"@], seq!["part"@], "\"TRANS-X900-2024\""@, false),
        entry_spec("torque_converter_lockup"@, "Torque Converter Lockup Status"@, vendor("x-allison-transmission"@), seq!["transmission"@, "torque-converter"@], seq!["lockup"@, "status"@], "{\"locked\": true, \"slip_rpm\": 25}"@, true)
    ]
}

/// The data service of the transmission.
fn create_transmission_data_service() -> (r: MockDataService)
    ensures
        r.entries() == table_after(transmission_entries()),
{
    let e0 = entry(
        "gear",
        "Current Gear",
        DataCategory::CurrentData,
        strs2("transmission", "gearing"),
        strs1("gear"),
        "{\"current\": 3, \"max\": 6}",
        true,
    );
    assert((e0.0@, e0.1@) == transmission_entries()[0]);
    let e1 = entry(
        "fluid_temp",
        "Transmission Fluid Temperature",
        DataCategory::CurrentData,
        strs2("transmission", "fluids"),
        strs1("temperature"),
        "{\"value\": 75}",
        true,
    );
    assert((e1.0@, e1.1@) == transmission_entries()[1]);
    let e2 = entry(
        "shift_mode",
        "Shift Mode",
        DataCategory::CurrentData,
        strs2("transmission", "control"),
        strs1("mode"),
        "\"automatic\"",
        true,
    );
    assert((e2.0@, e2.1@) == transmission_entries()[2]);
    let e3 = entry(
        "part_number",
        "Transmission Part Number",
        DataCategory::IdentData,
        strs2("transmission", "identification"),
        strs1("part"),
        "\"TRANS-X900-2024\"",
        false,
    );
    assert((e3.0@, e3.1@) == transmission_entries()[3]);
    let e4 = entry(
        "torque_converter_lockup",
        "Torque Converter Lockup Status",
        vendor_category("x-allison-transmission"),
        strs2("transmission", "torque-converter"),
        strs2("lockup", "status"),
        "{\"locked\": true, \"slip_rpm\": 25}",
        true,
    );
    assert((e4.0@, e4.1@) == transmission_entries()[4]);
    let data = vec![e0, e1, e2, e3, e4];
    assert(entry_list_view(data@) =~= transmission_entries());
    MockDataService::new(data)
}

// ----------------------------------------------------------------------------
// Hydraulics
// ----------------------------------------------------------------------------

/// The view of the hydraulic control system.
pub open spec fn hydraulics_view() -> EntityView {
    EntityView { id: "hydraulics"@, name: "Hydraulic Control System"@, tags: seq!["hydraulics"@], translation_id: None }
}

/// The hydraulic control system.
fn create_hydraulics_component() -> (r: MockComponent)
    ensures
        r.entity_view() == hydraulics_view(),
{
    MockComponent::new(String::from_str("hydraulics"), String::from_str("Hydraulic Control System"), strs1("hydraulics"))
}

/// The data of the hydraulic control system, in the order it is added.
pub open spec fn hydraulics_entries() -> Seq<(Seq<char>, DataEntryView)> {
    seq![
        entry_spec("main_pressure"@, "Main Hydraulic System Pressure"@, vendor("x-liebherr-hydraulics"@), seq!["hydraulics"@, "pressure"@], seq!["main"@, "system"@], "{\"value\": 350, \"max\": 420}"@, true),
        entry_spec("pilot_pressure"@, "Pilot Control Pressure"@, vendor("x-liebherr-hydraulics"@), seq!["hydraulics"@, "pilot"@], seq!["pilot"@, "control"@], "{\"value\": 28, \"target\": 30}"@, true),
        entry_spec("boom_position"@, "Boom Cylinder Position"@, vendor("x-liebherr-construction"@), seq!["hydraulics"@, "boom"@], seq!["position"@, "cylinder"@], "{\"extension\": 65}"@, true),
        entry_spec("fluid_temperature"@, "Hydraulic Fluid Temperature"@, DataCategoryView::CurrentData, seq!["hydraulics"@, "fluids"@], seq!["temperature"@], "{\"value\": 45, \"warning_threshold\": 80}"@, true),
        entry_spec("pump_model"@, "Hydraulic Pump Model"@, DataCategoryView::IdentData, seq!["hydraulics"@, "pump"@], seq!["model"@, "identification"@], "\"LH-PUMP-350-V2\""@, false)
    ]
}

/// The data service of the hydraulic control system.
fn create_hydraulics_data_service() -> (r: MockDataService)
    ensures
        r.entries() == table_after(hydraulics_entries()),
{
    let e0 = entry(
        "main_pressure",
        "Main Hydraulic System Pressure",
        vendor_category("x-liebherr-hydraulics"),
        strs2("hydraulics", "pressure"),
        strs2("main", "system"),
        "{\"value\": 350, \"max\": 420}",
        true,
    );
    assert((e0.0@, e0.1@) == hydraulics_entries()[0]);
    let e1 = entry(
        "pilot_pressure",
        "Pilot Control Pressure",
        vendor_category("x-liebherr-hydraulics"),
        strs2("hydraulics", "pilot"),
        strs2("pilot", "control"),
        "{\"value\": 28, \"target\": 30}",
        true,
    );
    assert((e1.0@, e1.1@) == hydraulics_entries()[1]);
    let e2 = entry(
        "boom_position",
        "Boom Cylinder Position",
        vendor_category("x-liebherr-construction"),
        strs2("hydraulics", "boom"),
        strs2("position", "cylinder"),
        "{\"extension\": 65}",
        true,
    );
    assert((e2.0@, e2.1@) == hydraulics_entries()[2]);
    let e3 = entry(
        "fluid_temperature",
        "Hydraulic Fluid Temperature",
        DataCategory::CurrentData,
        strs2("hydraulics", "fluids"),
        strs1("temperature"),
        "{\"value\": 45, \"warning_threshold\": 80}",
        true,
    );
    assert((e3.0@, e3.1@) == hydraulics_entries()[3]);
    let e4 = entry(
        "pump_model",
        "Hydraulic Pump Model",
        DataCategory::IdentData,
        strs2("hydraulics", "pump"),
        strs2("model", "identification"),
        "\"LH-PUMP-350-V2\"",
        false,
    );
    assert((e4.0@, e4.1@) == hydraulics_entries()[4]);
    let data = vec![e0, e1, e2, e3, e4];
    assert(entry_list_view(data@) =~= hydraulics_entries());
    MockDataService::new(data)
}

// ----------------------------------------------------------------------------
// The simulated machine
// ----------------------------------------------------------------------------

/// Adds the three components of the simulated machine (engine, transmission,
/// hydraulics), each with its data service.
pub fn create_mock_components(builder: DiagnosticBuilder<MockDataService>) -> (r: DiagnosticBuilder<MockDataService>)
    requires
        builder.wf(),
    ensures
        r.wf(),
        r.entities_view() == builder.entities_view().insert("engine"@, engine_view()).insert(
            "transmission"@,
            transmission_view(),
        ).insert("hydraulics"@, hydraulics_view()),
        exists|e: MockDataService, t: MockDataService, h: MockDataService|
            {
                &&& e.entries() == table_after(engine_entries())
                &&& t.entries() == table_after(transmission_entries())
                &&& h.entries() == table_after(hydraulics_entries())
                &&& r.services_view() == builder.services_view().insert("engine"@, e).insert("transmission"@, t).insert(
                    "hydraulics"@,
                    h,
                )
            },
{
    let engine = Arc::new(create_engine_component());
    let transmission = Arc::new(create_transmission_component());
    let hydraulics = Arc::new(create_hydraulics_component());

    let engine_data = create_engine_data_service();
    let transmission_data = create_transmission_data_service();
    let hydraulics_data = create_hydraulics_data_service();
    let ghost e = engine_data;
    let ghost t = transmission_data;
    let ghost h = hydraulics_data;

    let b = builder.with_entity(
        engine,
        (move |ctx: EntityContext<MockDataService>| -> (r: EntityContext<MockDataService>)
            ensures
                r@ == ctx@.push(e),
            { ctx.with_service(engine_data) }),
    );
    let b = b.with_entity(
        transmission,
        (move |ctx: EntityContext<MockDataService>| -> (r: EntityContext<MockDataService>)
            ensures
                r@ == ctx@.push(t),
            { ctx.with_service(transmission_data) }),
    );
    let b = b.with_entity(
        hydraulics,
        (move |ctx: EntityContext<MockDataService>| -> (r: EntityContext<MockDataService>)
            ensures
                r@ == ctx@.push(h),
            { ctx.with_service(hydraulics_data) }),
    );
    b
}

} // verus!
