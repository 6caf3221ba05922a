//! Hardware thresholds: the minimum and ideal requirements of each
//! (workload, magnitude) pair.
//!
//! Quantities are held in tenths of their unit: gigabytes for RAM, VRAM and
//! storage, physical cores for the CPU. A threshold of `0` for both the
//! minimum and the ideal means that the component is not evaluated for that
//! workload.
use vstd::prelude::*;
use crate::text::str_equal;

verus! {

/// A hardware component that the thresholds speak of.
#[derive(Debug, Clone, Copy, PartialEq, Eq, Structural, Hash)]
pub enum Component {
    Ram,
    Vram,
    Cores,
    Storage,
}

/// A workload.
#[derive(Debug, Clone, Copy, PartialEq, Eq, Structural, Hash)]
pub enum Task {
    IaGenerativa,
    DataScience,
    BasesDeDatos,
    Gaming,
    UsoGeneral,
}

/// How demanding a workload is.
#[derive(Debug, Clone, Copy, PartialEq, Eq, Structural, Hash)]
pub enum Magnitude {
    Alta,
    Media,
    Baja,
}

// ───────────────────────── names and orders ─────────────────────────

/// The identifier of a component ("ram", "vram", "cores", "storage").
pub open spec fn component_name(c: Component) -> Seq<char> {
    match c {
        Component::Ram => "ram"@,
        Component::Vram => "vram"@,
        Component::Cores => "cores"@,
        Component::Storage => "storage"@,
    }
}

/// The readable name of a component.
pub open spec fn component_label_of(c: Component) -> Seq<char> {
    match c {
        Component::Ram => "RAM"@,
        Component::Vram => "VRAM (GPU)"@,
        Component::Cores => "Núcleos CPU"@,
        Component::Storage => "Almacenamiento"@,
    }
}

/// The unit in which a component is measured.
pub open spec fn component_unit_of(c: Component) -> Seq<char> {
    match c {
        Component::Cores => "núcleos"@,
        _ => "GB"@,
    }
}

/// The component whose identifier is `s`, if any.
pub open spec fn component_from_name(s: Seq<char>) -> Option<Component> {
    if s == "ram"@ {
        Some(Component::Ram)
    } else if s == "vram"@ {
        Some(Component::Vram)
    } else if s == "cores"@ {
        Some(Component::Cores)
    } else if s == "storage"@ {
        Some(Component::Storage)
    } else {
        None
    }
}

/// The readable name for an identifier: the identifier itself when it names
/// no component.
pub open spec fn component_label_spec(s: Seq<char>) -> Seq<char> {
    match component_from_name(s) {
        Some(c) => component_label_of(c),
        None => s,
    }
}

/// The unit for an identifier: "núcleos" for the cores, "GB" for anything else.
pub open spec fn component_unit_spec(s: Seq<char>) -> Seq<char> {
    if s == "cores"@ {
        "núcleos"@
    } else {
        "GB"@
    }
}

/// The name of a workload.
pub open spec fn task_name(t: Task) -> Seq<char> {
    match t {
        Task::IaGenerativa => "IA Generativa"@,
        Task::DataScience => "Data Science"@,
        Task::BasesDeDatos => "Bases de Datos"@,
        Task::Gaming => "Gaming"@,
        Task::UsoGeneral => "Uso General"@,
    }
}

/// The workload whose name is `s`, if any.
pub open spec fn task_from_name(s: Seq<char>) -> Option<Task> {
    if s == "IA Generativa"@ {
        Some(Task::IaGenerativa)
    } else if s == "Data Science"@ {
        Some(Task::DataScience)
    } else if s == "Bases de Datos"@ {
        Some(Task::BasesDeDatos)
    } else if s == "Gaming"@ {
        Some(Task::Gaming)
    } else if s == "Uso General"@ {
        Some(Task::UsoGeneral)
    } else {
        None
    }
}

/// The name of a magnitude.
pub open spec fn magnitude_name(m: Magnitude) -> Seq<char> {
    match m {
        Magnitude::Alta => "Alta"@,
        Magnitude::Media => "Media"@,
        Magnitude::Baja => "Baja"@,
    }
}

/// Position of a workload in the presentation order.
pub open spec fn task_index(t: Task) -> int {
    match t {
        Task::IaGenerativa => 0,
        Task::DataScience => 1,
        Task::BasesDeDatos => 2,
        Task::Gaming => 3,
        Task::UsoGeneral => 4,
    }
}

/// The workload at position `i` of the presentation order.
pub open spec fn task_at(i: int) -> Task {
    if i == 0 {
        Task::IaGenerativa
    } else if i == 1 {
        Task::DataScience
    } else if i == 2 {
        Task::BasesDeDatos
    } else if i == 3 {
        Task::Gaming
    } else {
        Task::UsoGeneral
    }
}

/// Position of a magnitude in the presentation order (most demanding first).
pub open spec fn magnitude_index(m: Magnitude) -> int {
    match m {
        Magnitude::Alta => 0,
        Magnitude::Media => 1,
        Magnitude::Baja => 2,
    }
}

/// The magnitude at position `i` of the presentation order.
pub open spec fn magnitude_at(i: int) -> Magnitude {
    if i == 0 {
        Magnitude::Alta
    } else if i == 1 {
        Magnitude::Media
    } else {
        Magnitude::Baja
    }
}

/// Position of a component in the evaluation order.
pub open spec fn component_index(c: Component) -> int {
    match c {
        Component::Ram => 0,
        Component::Vram => 1,
        Component::Cores => 2,
        Component::Storage => 3,
    }
}

/// The evaluation order of the components.
pub open spec fn component_order() -> Seq<Component> {
    seq![Component::Ram, Component::Vram, Component::Cores, Component::Storage]
}

/// Position of the (workload, magnitude) pair in the presentation order:
/// workloads in order, and within each the magnitudes in order.
pub open spec fn pair_index(t: Task, m: Magnitude) -> int {
    3 * task_index(t) + magnitude_index(m)
}

impl Component {
    /// The identifier of the component.
    pub fn name(&self) -> (r: &'static str)
        ensures
            r@ == component_name(*self),
    {
        match self {
            Component::Ram => "ram",
            Component::Vram => "vram",
            Component::Cores => "cores",
            Component::Storage => "storage",
        }
    }

    /// The readable name of the component.
    pub fn label(&self) -> (r: &'static str)
        ensures
            r@ == component_label_of(*self),
    {
        match self {
            Component::Ram => "RAM",
            Component::Vram => "VRAM (GPU)",
            Component::Cores => "Núcleos CPU",
            Component::Storage => "Almacenamiento",
        }
    }

    /// The unit in which the component is measured.
    pub fn unit(&self) -> (r: &'static str)
        ensures
            r@ == component_unit_of(*self),
    {
        match self {
            Component::Cores => "núcleos",
            _ => "GB",
        }
    }

    /// The component whose identifier is `name`, if any.
    pub fn from_name(name: &str) -> (r: Option<Component>)
        ensures
            r == component_from_name(name@),
    {
        if str_equal(name, "ram") {
            Some(Component::Ram)
        } else if str_equal(name, "vram") {
            Some(Component::Vram)
        } else if str_equal(name, "cores") {
            Some(Component::Cores)
        } else if str_equal(name, "storage") {
            Some(Component::Storage)
        } else {
            None
        }
    }

    /// The components in evaluation order.
    pub fn all() -> (r: Vec<Component>)
        ensures
            r@ == component_order(),
    {
        vec![Component::Ram, Component::Vram, Component::Cores, Component::Storage]
    }
}

impl Task {
    /// The name of the workload.
    pub fn name(&self) -> (r: &'static str)
        ensures
            r@ == task_name(*self),
    {
        match self {
            Task::IaGenerativa => "IA Generativa",
            Task::DataScience => "Data Science",
            Task::BasesDeDatos => "Bases de Datos",
            Task::Gaming => "Gaming",
            Task::UsoGeneral => "Uso General",
        }
    }

    /// The workload whose name is `name`, if any.
    pub fn from_name(name: &str) -> (r: Option<Task>)
        ensures
            r == task_from_name(name@),
    {
        if str_equal(name, "IA Generativa") {
            Some(Task::IaGenerativa)
        } else if str_equal(name, "Data Science") {
            Some(Task::DataScience)
        } else if str_equal(name, "Bases de Datos") {
            Some(Task::BasesDeDatos)
        } else if str_equal(name, "Gaming") {
            Some(Task::Gaming)
        } else if str_equal(name, "Uso General") {
            Some(Task::UsoGeneral)
        } else {
            None
        }
    }

    /// The workload at position `i` of the presentation order.
    pub fn at(i: usize) -> (r: Task)
        requires
            i < 5,
        ensures
            r == task_at(i as int),
            task_index(r) == i,
    {
        if i == 0 {
            Task::IaGenerativa
        } else if i == 1 {
            Task::DataScience
        } else if i == 2 {
            Task::BasesDeDatos
        } else if i == 3 {
            Task::Gaming
        } else {
            Task::UsoGeneral
        }
    }
}

impl Magnitude {
    /// The name of the magnitude.
    pub fn name(&self) -> (r: &'static str)
        ensures
            r@ == magnitude_name(*self),
    {
        match self {
            Magnitude::Alta => "Alta",
            Magnitude::Media => "Media",
            Magnitude::Baja => "Baja",
        }
    }

    /// The magnitude at position `i` of the presentation order.
    pub fn at(i: usize) -> (r: Magnitude)
        requires
            i < 3,
        ensures
            r == magnitude_at(i as int),
            magnitude_index(r) == i,
    {
        if i == 0 {
            Magnitude::Alta
        } else if i == 1 {
            Magnitude::Media
        } else {
            Magnitude::Baja
        }
    }
}

/// Readable name of a component identifier; any other text is returned as it is.
pub fn component_label<'a>(name: &'a str) -> (r: &'a str)
    ensures
        r@ == component_label_spec(name@),
{
    match Component::from_name(name) {
        Some(c) => c.label(),
        None => name,
    }
}

/// Unit of measure of a component identifier: "núcleos" for "cores", "GB"
/// for anything else.
pub fn component_unit<'a>(name: &'a str) -> (r: &'a str)
    ensures
        r@ == component_unit_spec(name@),
{
    if str_equal(name, "cores") {
        "núcleos"
    } else {
        "GB"
    }
}

/// Minimum and ideal values for a component, in tenths of its unit.
#[derive(Debug, Clone, Copy, PartialEq, Eq, Structural)]
pub struct ComponentThreshold {
    pub min: u64,
    pub ideal: u64,
}

/// Whether a threshold asks anything of its component: a minimum and an
/// ideal of zero both mean that the component is not evaluated.
pub open spec fn is_evaluated(ct: ComponentThreshold) -> bool {
    !(ct.min == 0 && ct.ideal == 0)
}

impl ComponentThreshold {
    /// Whether this threshold asks anything of its component.
    pub fn is_evaluated(&self) -> (r: bool)
        ensures
            r == is_evaluated(*self),
    {
        !(self.min == 0 && self.ideal == 0)
    }
}

/// The requirements of one (workload, magnitude) pair.
#[derive(Debug, Clone)]
pub struct Threshold {
    pub task: Task,
    pub magnitude: Magnitude,
    pub description: &'static str,
    /// The components whose verdicts decide the overall verdict.
    pub critical_components: Vec<Component>,
    pub ram: ComponentThreshold,
    pub vram: ComponentThreshold,
    pub cores: ComponentThreshold,
    pub storage: ComponentThreshold,
}

/// The mathematical content of a [`Threshold`].
#[verifier::ext_equal]
pub struct ThresholdView {
    pub task: Task,
    pub magnitude: Magnitude,
    pub description: Seq<char>,
    pub critical: Seq<Component>,
    pub ram: ComponentThreshold,
    pub vram: ComponentThreshold,
    pub cores: ComponentThreshold,
    pub storage: ComponentThreshold,
}

impl ThresholdView {
    /// The threshold of component `c`.
    pub open spec fn of(self, c: Component) -> ComponentThreshold {
        match c {
            Component::Ram => self.ram,
            Component::Vram => self.vram,
            Component::Cores => self.cores,
            Component::Storage => self.storage,
        }
    }
}

impl View for Threshold {
    type V = ThresholdView;

    open spec fn view(&self) -> ThresholdView {
        ThresholdView {
            task: self.task,
            magnitude: self.magnitude,
            description: self.description@,
            critical: self.critical_components@,
            ram: self.ram,
            vram: self.vram,
            cores: self.cores,
            storage: self.storage,
        }
    }
}

/// The description of each (workload, magnitude) pair.
pub open spec fn threshold_description(t: Task, m: Magnitude) -> Seq<char> {
    match (t, m) {
        (Task::IaGenerativa, Magnitude::Alta) => "Modelos multi-agente, fine-tuning, entrenamiento avanzado"@,
        (Task::IaGenerativa, Magnitude::Media) => "Inferencias locales de modelos ~8B parámetros"@,
        (Task::IaGenerativa, Magnitude::Baja) => "Inferencias ligeras, modelos ≤3B cuantizados"@,
        (Task::DataScience, Magnitude::Alta) => "Pipelines ETL masivos, datasets >100 GB, Spark/Dask"@,
        (Task::DataScience, Magnitude::Media) => "Notebooks con pandas/sklearn, datasets medianos"@,
        (Task::DataScience, Magnitude::Baja) => "Análisis exploratorio liviano, CSVs pequeños"@,
        (Task::BasesDeDatos, Magnitude::Alta) => "PostgreSQL/MySQL con millones de registros, réplicas"@,
        (Task::BasesDeDatos, Magnitude::Media) => "Bases de datos medianas, consultas complejas"@,
        (Task::BasesDeDatos, Magnitude::Baja) => "SQLite local, bases de prueba/desarrollo"@,
        (Task::Gaming, Magnitude::Alta) => "AAA a 4K/Ultra, ray-tracing habilitado"@,
        (Task::Gaming, Magnitude::Media) => "Juegos AAA a 1080p/High, e-sports competitivo"@,
        (Task::Gaming, Magnitude::Baja) => "Juegos indie/retro, configuraciones mínimas"@,
        (Task::UsoGeneral, Magnitude::Alta) => "Multitarea pesada: IDEs, navegador 50+ pestañas, VMs"@,
        (Task::UsoGeneral, Magnitude::Media) => "Ofimática, navegación, streaming de vídeo"@,
        (Task::UsoGeneral, Magnitude::Baja) => "Navegación básica, procesador de textos"@,
    }
}

/// The critical components of each (workload, magnitude) pair.
pub open spec fn threshold_critical(t: Task, m: Magnitude) -> Seq<Component> {
    match (t, m) {
        (Task::IaGenerativa, Magnitude::Alta) => seq![Component::Ram, Component::Vram, Component::Cores],
        (Task::IaGenerativa, Magnitude::Media) => seq![Component::Ram, Component::Vram],
        (Task::IaGenerativa, Magnitude::Baja) => seq![Component::Ram],
        (Task::DataScience, Magnitude::Alta) => seq![Component::Ram, Component::Cores],
        (Task::DataScience, Magnitude::Media) => seq![Component::Ram, Component::Cores],
        (Task::DataScience, Magnitude::Baja) => seq![Component::Ram],
        (Task::BasesDeDatos, Magnitude::Alta) => seq![Component::Ram, Component::Cores, Component::Storage],
        (Task::BasesDeDatos, Magnitude::Media) => seq![Component::Ram, Component::Cores, Component::Storage],
        (Task::BasesDeDatos, Magnitude::Baja) => seq![Component::Ram, Component::Storage],
        (Task::Gaming, Magnitude::Alta) => seq![Component::Ram, Component::Vram, Component::Cores],
        (Task::Gaming, Magnitude::Media) => seq![Component::Ram, Component::Vram],
        (Task::Gaming, Magnitude::Baja) => seq![Component::Ram],
        (Task::UsoGeneral, Magnitude::Alta) => seq![Component::Ram, Component::Cores],
        (Task::UsoGeneral, Magnitude::Media) => seq![Component::Ram],
        (Task::UsoGeneral, Magnitude::Baja) => seq![Component::Ram],
    }
}

/// The RAM, VRAM, cores and storage thresholds of each (workload, magnitude)
/// pair, in tenths of gigabytes or of cores.
pub open spec fn threshold_limits(t: Task, m: Magnitude) -> (
    ComponentThreshold,
    ComponentThreshold,
    ComponentThreshold,
    ComponentThreshold,
) {
    match (t, m) {
        (Task::IaGenerativa, Magnitude::Alta) => (ComponentThreshold { min: 160, ideal: 1280 }, ComponentThreshold { min: 120, ideal: 240 }, ComponentThreshold { min: 80, ideal: 160 }, ComponentThreshold { min: 1000, ideal: 5000 }),
        (Task::IaGenerativa, Magnitude::Media) => (ComponentThreshold { min: 160, ideal: 320 }, ComponentThreshold { min: 80, ideal: 160 }, ComponentThreshold { min: 60, ideal: 120 }, ComponentThreshold { min: 500, ideal: 2000 }),
        (Task::IaGenerativa, Magnitude::Baja) => (ComponentThreshold { min: 80, ideal: 160 }, ComponentThreshold { min: 40, ideal: 80 }, ComponentThreshold { min: 40, ideal: 80 }, ComponentThreshold { min: 300, ideal: 1000 }),
        (Task::DataScience, Magnitude::Alta) => (ComponentThreshold { min: 320, ideal: 640 }, ComponentThreshold { min: 40, ideal: 120 }, ComponentThreshold { min: 80, ideal: 160 }, ComponentThreshold { min: 2000, ideal: 10000 }),
        (Task::DataScience, Magnitude::Media) => (ComponentThreshold { min: 160, ideal: 320 }, ComponentThreshold { min: 20, ideal: 80 }, ComponentThreshold { min: 40, ideal: 80 }, ComponentThreshold { min: 1000, ideal: 5000 }),
        (Task::DataScience, Magnitude::Baja) => (ComponentThreshold { min: 80, ideal: 160 }, ComponentThreshold { min: 0, ideal: 40 }, ComponentThreshold { min: 20, ideal: 40 }, ComponentThreshold { min: 500, ideal: 2000 }),
        (Task::BasesDeDatos, Magnitude::Alta) => (ComponentThreshold { min: 320, ideal: 640 }, ComponentThreshold { min: 0, ideal: 0 }, ComponentThreshold { min: 80, ideal: 160 }, ComponentThreshold { min: 5000, ideal: 20000 }),
        (Task::BasesDeDatos, Magnitude::Media) => (ComponentThreshold { min: 160, ideal: 320 }, ComponentThreshold { min: 0, ideal: 0 }, ComponentThreshold { min: 40, ideal: 80 }, ComponentThreshold { min: 2000, ideal: 5000 }),
        (Task::BasesDeDatos, Magnitude::Baja) => (ComponentThreshold { min: 80, ideal: 160 }, ComponentThreshold { min: 0, ideal: 0 }, ComponentThreshold { min: 20, ideal: 40 }, ComponentThreshold { min: 1000, ideal: 2000 }),
        (Task::Gaming, Magnitude::Alta) => (ComponentThreshold { min: 160, ideal: 320 }, ComponentThreshold { min: 80, ideal: 120 }, ComponentThreshold { min: 60, ideal: 80 }, ComponentThreshold { min: 1000, ideal: 5000 }),
        (Task::Gaming, Magnitude::Media) => (ComponentThreshold { min: 80, ideal: 160 }, ComponentThreshold { min: 40, ideal: 80 }, ComponentThreshold { min: 40, ideal: 60 }, ComponentThreshold { min: 500, ideal: 2000 }),
        (Task::Gaming, Magnitude::Baja) => (ComponentThreshold { min: 40, ideal: 80 }, ComponentThreshold { min: 20, ideal: 40 }, ComponentThreshold { min: 20, ideal: 40 }, ComponentThreshold { min: 300, ideal: 1000 }),
        (Task::UsoGeneral, Magnitude::Alta) => (ComponentThreshold { min: 80, ideal: 160 }, ComponentThreshold { min: 0, ideal: 0 }, ComponentThreshold { min: 40, ideal: 80 }, ComponentThreshold { min: 1000, ideal: 5000 }),
        (Task::UsoGeneral, Magnitude::Media) => (ComponentThreshold { min: 40, ideal: 80 }, ComponentThreshold { min: 0, ideal: 0 }, ComponentThreshold { min: 20, ideal: 40 }, ComponentThreshold { min: 500, ideal: 2000 }),
        (Task::UsoGeneral, Magnitude::Baja) => (ComponentThreshold { min: 20, ideal: 40 }, ComponentThreshold { min: 0, ideal: 0 }, ComponentThreshold { min: 10, ideal: 20 }, ComponentThreshold { min: 300, ideal: 1000 }),
    }
}

/// The threshold table entry of a (workload, magnitude) pair.
pub open spec fn threshold_spec(t: Task, m: Magnitude) -> ThresholdView {
    let limits = threshold_limits(t, m);
    ThresholdView {
        task: t,
        magnitude: m,
        description: threshold_description(t, m),
        critical: threshold_critical(t, m),
        ram: limits.0,
        vram: limits.1,
        cores: limits.2,
        storage: limits.3,
    }
}

/// Builds the threshold table entry of a (workload, magnitude) pair.
pub fn make_threshold(task: Task, magnitude: Magnitude) -> (r: Threshold)
    ensures
        r@ == threshold_spec(task, magnitude),
{
    let r = match (task, magnitude) {
        (Task::IaGenerativa, Magnitude::Alta) => Threshold {
            task,
            magnitude,
            description: "Modelos multi-agente, fine-tuning, entrenamiento avanzado",
            critical_components: vec![Component::Ram, Component::Vram, Component::Cores],
            ram: ComponentThreshold { min: 160, ideal: 1280 },
            vram: ComponentThreshold { min: 120, ideal: 240 },
            cores: ComponentThreshold { min: 80, ideal: 160 },
            storage: ComponentThreshold { min: 1000, ideal: 5000 },
        },
        (Task::IaGenerativa, Magnitude::Media) => Threshold {
            task,
            magnitude,
            description: "Inferencias locales de modelos ~8B parámetros",
            critical_components: vec![Component::Ram, Component::Vram],
            ram: ComponentThreshold { min: 160, ideal: 320 },
            vram: ComponentThreshold { min: 80, ideal: 160 },
            cores: ComponentThreshold { min: 60, ideal: 120 },
            storage: ComponentThreshold { min: 500, ideal: 2000 },
        },
        (Task::IaGenerativa, Magnitude::Baja) => Threshold {
            task,
            magnitude,
            description: "Inferencias ligeras, modelos ≤3B cuantizados",
            critical_components: vec![Component::Ram],
            ram: ComponentThreshold { min: 80, ideal: 160 },
            vram: ComponentThreshold { min: 40, ideal: 80 },
            cores: ComponentThreshold { min: 40, ideal: 80 },
            storage: ComponentThreshold { min: 300, ideal: 1000 },
        },
        (Task::DataScience, Magnitude::Alta) => Threshold {
            task,
            magnitude,
            description: "Pipelines ETL masivos, datasets >100 GB, Spark/Dask",
            critical_components: vec![Component::Ram, Component::Cores],
            ram: ComponentThreshold { min: 320, ideal: 640 },
            vram: ComponentThreshold { min: 40, ideal: 120 },
            cores: ComponentThreshold { min: 80, ideal: 160 },
            storage: ComponentThreshold { min: 2000, ideal: 10000 },
        },
        (Task::DataScience, Magnitude::Media) => Threshold {
            task,
            magnitude,
            description: "Notebooks con pandas/sklearn, datasets medianos",
            critical_components: vec![Component::Ram, Component::Cores],
            ram: ComponentThreshold { min: 160, ideal: 320 },
            vram: ComponentThreshold { min: 20, ideal: 80 },
            cores: ComponentThreshold { min: 40, ideal: 80 },
            storage: ComponentThreshold { min: 1000, ideal: 5000 },
        },
        (Task::DataScience, Magnitude::Baja) => Threshold {
            task,
            magnitude,
            description: "Análisis exploratorio liviano, CSVs pequeños",
            critical_components: vec![Component::Ram],
            ram: ComponentThreshold { min: 80, ideal: 160 },
            vram: ComponentThreshold { min: 0, ideal: 40 },
            cores: ComponentThreshold { min: 20, ideal: 40 },
            storage: ComponentThreshold { min: 500, ideal: 2000 },
        },
        (Task::BasesDeDatos, Magnitude::Alta) => Threshold {
            task,
            magnitude,
            description: "PostgreSQL/MySQL con millones de registros, réplicas",
            critical_components: vec![Component::Ram, Component::Cores, Component::Storage],
            ram: ComponentThreshold { min: 320, ideal: 640 },
            vram: ComponentThreshold { min: 0, ideal: 0 },
            cores: ComponentThreshold { min: 80, ideal: 160 },
            storage: ComponentThreshold { min: 5000, ideal: 20000 },
        },
        (Task::BasesDeDatos, Magnitude::Media) => Threshold {
            task,
            magnitude,
            description: "Bases de datos medianas, consultas complejas",
            critical_components: vec![Component::Ram, Component::Cores, Component::Storage],
            ram: ComponentThreshold { min: 160, ideal: 320 },
            vram: ComponentThreshold { min: 0, ideal: 0 },
            cores: ComponentThreshold { min: 40, ideal: 80 },
            storage: ComponentThreshold { min: 2000, ideal: 5000 },
        },
        (Task::BasesDeDatos, Magnitude::Baja) => Threshold {
            task,
            magnitude,
            description: "SQLite local, bases de prueba/desarrollo",
            critical_components: vec![Component::Ram, Component::Storage],
            ram: ComponentThreshold { min: 80, ideal: 160 },
            vram: ComponentThreshold { min: 0, ideal: 0 },
            cores: ComponentThreshold { min: 20, ideal: 40 },
            storage: ComponentThreshold { min: 1000, ideal: 2000 },
        },
        (Task::Gaming, Magnitude::Alta) => Threshold {
            task,
            magnitude,
            description: "AAA a 4K/Ultra, ray-tracing habilitado",
            critical_components: vec![Component::Ram, Component::Vram, Component::Cores],
            ram: ComponentThreshold { min: 160, ideal: 320 },
            vram: ComponentThreshold { min: 80, ideal: 120 },
            cores: ComponentThreshold { min: 60, ideal: 80 },
            storage: ComponentThreshold { min: 1000, ideal: 5000 },
        },
        (Task::Gaming, Magnitude::Media) => Threshold {
            task,
            magnitude,
            description: "Juegos AAA a 1080p/High, e-sports competitivo",
            critical_components: vec![Component::Ram, Component::Vram],
            ram: ComponentThreshold { min: 80, ideal: 160 },
            vram: ComponentThreshold { min: 40, ideal: 80 },
            cores: ComponentThreshold { min: 40, ideal: 60 },
            storage: ComponentThreshold { min: 500, ideal: 2000 },
        },
        (Task::Gaming, Magnitude::Baja) => Threshold {
            task,
            magnitude,
            description: "Juegos indie/retro, configuraciones mínimas",
            critical_components: vec![Component::Ram],
            ram: ComponentThreshold { min: 40, ideal: 80 },
            vram: ComponentThreshold { min: 20, ideal: 40 },
            cores: ComponentThreshold { min: 20, ideal: 40 },
            storage: ComponentThreshold { min: 300, ideal: 1000 },
        },
        (Task::UsoGeneral, Magnitude::Alta) => Threshold {
            task,
            magnitude,
            description: "Multitarea pesada: IDEs, navegador 50+ pestañas, VMs",
            critical_components: vec![Component::Ram, Component::Cores],
            ram: ComponentThreshold { min: 80, ideal: 160 },
            vram: ComponentThreshold { min: 0, ideal: 0 },
            cores: ComponentThreshold { min: 40, ideal: 80 },
            storage: ComponentThreshold { min: 1000, ideal: 5000 },
        },
        (Task::UsoGeneral, Magnitude::Media) => Threshold {
            task,
            magnitude,
            description: "Ofimática, navegación, streaming de vídeo",
            critical_components: vec![Component::Ram],
            ram: ComponentThreshold { min: 40, ideal: 80 },
            vram: ComponentThreshold { min: 0, ideal: 0 },
            cores: ComponentThreshold { min: 20, ideal: 40 },
            storage: ComponentThreshold { min: 500, ideal: 2000 },
        },
        (Task::UsoGeneral, Magnitude::Baja) => Threshold {
            task,
            magnitude,
            description: "Navegación básica, procesador de textos",
            critical_components: vec![Component::Ram],
            ram: ComponentThreshold { min: 20, ideal: 40 },
            vram: ComponentThreshold { min: 0, ideal: 0 },
            cores: ComponentThreshold { min: 10, ideal: 20 },
            storage: ComponentThreshold { min: 300, ideal: 1000 },
        },
    };
    assert(r@ =~= threshold_spec(task, magnitude));
    r
}

/// Distinct (workload, magnitude) pairs sit at distinct positions of the
/// presentation order, all below fifteen.
pub proof fn lemma_pair_index(t1: Task, m1: Magnitude, t2: Task, m2: Magnitude)
    ensures
        0 <= pair_index(t1, m1) < 15,
        pair_index(t1, m1) == pair_index(t2, m2) ==> t1 == t2 && m1 == m2,
{
    assert(task_at(task_index(t1)) == t1);
    assert(task_at(task_index(t2)) == t2);
    assert(magnitude_at(magnitude_index(m1)) == m1);
    assert(magnitude_at(magnitude_index(m2)) == m2);
}

impl Threshold {
    /// The threshold of component `c`.
    pub fn component(&self, c: Component) -> (r: ComponentThreshold)
        ensures
            r == self@.of(c),
    {
        match c {
            Component::Ram => self.ram,
            Component::Vram => self.vram,
            Component::Cores => self.cores,
            Component::Storage => self.storage,
        }
    }

    /// The threshold of the component whose identifier is `name`; `None`
    /// when `name` identifies no component.
    pub fn get_component(&self, name: &str) -> (r: Option<&ComponentThreshold>)
        ensures
            r is Some <==> component_from_name(name@) is Some,
            r matches Some(ct) ==> *ct == self@.of(component_from_name(name@)->0),
    {
        match Component::from_name(name) {
            Some(Component::Ram) => Some(&self.ram),
            Some(Component::Vram) => Some(&self.vram),
            Some(Component::Cores) => Some(&self.cores),
            Some(Component::Storage) => Some(&self.storage),
            None => None,
        }
    }

    /// A copy of this threshold.
    pub fn duplicate(&self) -> (r: Threshold)
        ensures
            r@ == self@,
    {
        let r = Threshold {
            task: self.task,
            magnitude: self.magnitude,
            description: self.description,
            critical_components: self.critical_components.clone(),
            ram: self.ram,
            vram: self.vram,
            cores: self.cores,
            storage: self.storage,
        };
        assert(r@ =~= self@);
        r
    }
}

/// The whole threshold table: for each workload in presentation order, its
/// entries from the most to the least demanding magnitude.
pub fn thresholds() -> (r: Vec<Threshold>)
    ensures
        r.len() == 15,
        forall|t: Task, m: Magnitude| #[trigger] r@[pair_index(t, m)]@ == threshold_spec(t, m),
        forall|i: int|
            0 <= i < 15 ==> #[trigger] r@[i]@ == threshold_spec(r@[i].task, r@[i].magnitude),
{
    let mut r: Vec<Threshold> = Vec::new();
    let mut ti: usize = 0;
    while ti < 5
        invariant
            ti <= 5,
            r.len() == 3 * ti,
            forall|t: Task, m: Magnitude|
                pair_index(t, m) < r.len() ==> #[trigger] r@[pair_index(t, m)]@ == threshold_spec(
                    t,
                    m,
                ),
            forall|i: int|
                0 <= i < r.len() ==> #[trigger] r@[i]@ == threshold_spec(
                    r@[i].task,
                    r@[i].magnitude,
                ),
        decreases 5 - ti,
    {
        let task = Task::at(ti);
        let mut mi: usize = 0;
        while mi < 3
            invariant
                ti < 5,
                mi <= 3,
                task == task_at(ti as int),
                task_index(task) == ti,
                r.len() == 3 * ti + mi,
                forall|t: Task, m: Magnitude|
                    pair_index(t, m) < r.len() ==> #[trigger] r@[pair_index(t, m)]@
                        == threshold_spec(t, m),
                forall|i: int|
                    0 <= i < r.len() ==> #[trigger] r@[i]@ == threshold_spec(
                        r@[i].task,
                        r@[i].magnitude,
                    ),
            decreases 3 - mi,
        {
            let magnitude = Magnitude::at(mi);
            let th = make_threshold(task, magnitude);
            let ghost before = r@;
            r.push(th);
            assert forall|t: Task, m: Magnitude|
                pair_index(t, m) < r.len() implies #[trigger] r@[pair_index(t, m)]@
                    == threshold_spec(t, m) by {
                lemma_pair_index(t, m, task, magnitude);
                if pair_index(t, m) < before.len() {
                    assert(r@[pair_index(t, m)] == before[pair_index(t, m)]);
                }
            }
            assert forall|i: int| 0 <= i < r.len() implies #[trigger] r@[i]@ == threshold_spec(
                r@[i].task,
                r@[i].magnitude,
            ) by {
                if i < before.len() {
                    assert(r@[i] == before[i]);
                }
            }
            mi = mi + 1;
        }
        ti = ti + 1;
    }
    r
}

/// Position of the first entry of `table` for the given workload (by name)
/// and magnitude.
pub fn find_threshold(table: &Vec<Threshold>, task: &str, magnitude: Magnitude) -> (r: Option<usize>)
    ensures
        match r {
            Some(i) => {
                &&& i < table.len()
                &&& task_name(table@[i as int].task) == task@
                &&& table@[i as int].magnitude == magnitude
                &&& forall|j: int|
                    0 <= j < i ==> !(task_name(#[trigger] table@[j].task) == task@
                        && table@[j].magnitude == magnitude)
            },
            None => forall|j: int|
                0 <= j < table.len() ==> !(task_name(#[trigger] table@[j].task) == task@
                    && table@[j].magnitude == magnitude),
        },
{
    let n = table.len();
    let mut i: usize = 0;
    while i < n
        invariant
            n == table.len(),
            i <= n,
            forall|j: int|
                0 <= j < i ==> !(task_name(#[trigger] table@[j].task) == task@
                    && table@[j].magnitude == magnitude),
        decreases n - i,
    {
        if str_equal(table[i].task.name(), task) && table[i].magnitude == magnitude {
            return Some(i);
        }
        i = i + 1;
    }
    None
}

/// The names of the workloads are pairwise distinct, and each name is read
/// back as its workload.
pub proof fn lemma_task_names(t: Task)
    ensures
        task_from_name(task_name(t)) == Some(t),
{
    reveal_strlit("IA Generativa");
    reveal_strlit("Data Science");
    reveal_strlit("Bases de Datos");
    reveal_strlit("Gaming");
    reveal_strlit("Uso General");
    assert("IA Generativa"@.len() == 13);
    assert("Data Science"@.len() == 12);
    assert("Bases de Datos"@.len() == 14);
    assert("Gaming"@.len() == 6);
    assert("Uso General"@.len() == 11);
}

/// The thresholds of the workload named `task`, from the most to the least
/// demanding magnitude; none when no workload has that name.
pub fn thresholds_for_task(task: &str) -> (r: Vec<Threshold>)
    ensures
        match task_from_name(task@) {
            Some(t) => r.len() == 3 && forall|i: int|
                0 <= i < 3 ==> #[trigger] r@[i]@ == threshold_spec(t, magnitude_at(i)),
            None => r.len() == 0,
        },
{
    let table = thresholds();
    let mut r: Vec<Threshold> = Vec::new();
    let ghost wanted = task_from_name(task@);
    proof {
        if let Some(t) = wanted {
            lemma_task_names(t);
        }
        assert forall|t: Task| task_name(t) == task@ implies wanted == Some(t) by {
            lemma_task_names(t);
        }
    }
    let mut mi: usize = 0;
    while mi < 3
        invariant
            mi <= 3,
            table.len() == 15,
            forall|t: Task, m: Magnitude| #[trigger] table@[pair_index(t, m)]@ == threshold_spec(t, m),
            forall|i: int|
                0 <= i < 15 ==> #[trigger] table@[i]@ == threshold_spec(
                    table@[i].task,
                    table@[i].magnitude,
                ),
            wanted == task_from_name(task@),
            forall|t: Task| task_name(t) == task@ ==> wanted == Some(t),
            match wanted {
                Some(t) => {
                    &&& task_name(t) == task@
                    &&& r.len() == mi
                    &&& forall|i: int|
                        0 <= i < mi ==> #[trigger] r@[i]@ == threshold_spec(t, magnitude_at(i))
                },
                None => r.len() == 0,
            },
        decreases 3 - mi,
    {
        let magnitude = Magnitude::at(mi);
        match find_threshold(&table, task, magnitude) {
            Some(i) => {
                let ghost found = table@[i as int];
                assert(found@ == threshold_spec(found.task, found.magnitude));
                let ghost before = r@;
                r.push(table[i].duplicate());
                assert forall|k: int| 0 <= k < mi + 1 implies #[trigger] r@[k]@ == threshold_spec(
                    wanted->0,
                    magnitude_at(k),
                ) by {
                    if k < mi {
                        assert(r@[k] == before[k]);
                    }
                }
            },
            None => {
                proof {
                    if let Some(t) = wanted {
                        lemma_pair_index(t, magnitude, t, magnitude);
                        assert(table@[pair_index(t, magnitude)]@ == threshold_spec(t, magnitude));
                    }
                }
            },
        }
        mi = mi + 1;
    }
    r
}

} // verus!
