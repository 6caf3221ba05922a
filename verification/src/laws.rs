//! Properties of the threshold table and of the evaluation as a whole.
use vstd::prelude::*;
use crate::engine::{
    Status, detail_spec, evaluate_component_spec, evaluation_spec, insufficient_note,
    insufficient_notes, is_critical, overall_spec, status_rank, sufficient_note, sufficient_notes,
};
use crate::rules::{
    Component, Magnitude, Task, ThresholdView, component_from_name, component_index, component_name,
    component_label_of, component_order, component_unit_of, task_from_name, task_name,
    threshold_spec,
};
use crate::scanner::{DiskSample, GpuInfo, HardwareInfo, actual_spec, is_main_disk, is_root_path};
use crate::text::{fixed_tenths, join_with, signed_fixed_tenths};
use crate::report::{format_gb_spec, gpu_summary_spec, ram_summary_spec, storage_summary_spec};
use crate::scanner::{RamInfo, StorageInfo};

verus! {

/// Every entry of the threshold table asks no more at the minimum than at
/// the ideal, has at least one critical component, counts RAM among its
/// critical components, and lists no critical component twice.
pub proof fn lemma_table_well_formed(t: Task, m: Magnitude)
    ensures
        forall|c: Component| #[trigger] threshold_spec(t, m).of(c).min <= threshold_spec(t, m).of(c).ideal,
        threshold_spec(t, m).critical.len() > 0,
        threshold_spec(t, m).critical.contains(Component::Ram),
        threshold_spec(t, m).critical.no_duplicates(),
{
    let th = threshold_spec(t, m);
    assert(th.critical[0] == Component::Ram);
}

/// Each component identifier is read back as its component.
pub proof fn lemma_component_names(c: Component)
    ensures
        component_from_name(component_name(c)) == Some(c),
{
    reveal_strlit("ram");
    reveal_strlit("vram");
    reveal_strlit("cores");
    reveal_strlit("storage");
    assert("ram"@.len() == 3);
    assert("vram"@.len() == 4);
    assert("cores"@.len() == 5);
    assert("storage"@.len() == 7);
}

/// A component is judged insufficient exactly below its minimum, optimal
/// exactly from its ideal on, and sufficient in between; a threshold that
/// asks nothing is always met.
pub proof fn lemma_component_verdicts(actual: int, t: Task, m: Magnitude, c: Component)
    ensures
        ({
            let ct = threshold_spec(t, m).of(c);
            let s = evaluate_component_spec(actual, ct);
            &&& (ct.min == 0 && ct.ideal == 0) ==> s == Status::Optimo
            &&& !(ct.min == 0 && ct.ideal == 0) ==> {
                &&& (s == Status::Insuficiente <==> actual < ct.min)
                &&& (s == Status::Optimo <==> actual >= ct.ideal)
                &&& (s == Status::Suficiente <==> ct.min <= actual < ct.ideal)
            }
        }),
{
    lemma_table_well_formed(t, m);
    let ct = threshold_spec(t, m).of(c);
    assert(ct.min <= ct.ideal);
}

/// The overall verdict of a workload is the worst verdict among its
/// critical components: no critical component is judged worse than it, and
/// unless it is optimal some critical component is judged exactly so.
pub proof fn lemma_overall_is_worst_critical(hw: HardwareInfo, t: Task, m: Magnitude)
    ensures
        ({
            let th = threshold_spec(t, m);
            let overall = evaluation_spec(hw, t, m).overall_status;
            &&& forall|c: Component|
                #[trigger] is_critical(th, c) ==> status_rank(overall) <= status_rank(
                    detail_spec(hw, th, c).status,
                )
            &&& overall != Status::Optimo ==> exists|c: Component|
                #[trigger] is_critical(th, c) && detail_spec(hw, th, c).status == overall
        }),
{
    let th = threshold_spec(t, m);
    let order = component_order();
    assert forall|c: Component| #[trigger] is_critical(th, c) implies status_rank(
        overall_spec(hw, th),
    ) <= status_rank(detail_spec(hw, th, c).status) by {
        let j = component_index(c);
        assert(order[j] == c);
    }
}

/// A single insufficient critical component makes the whole workload
/// insufficient.
pub proof fn lemma_one_insufficient_decides(hw: HardwareInfo, t: Task, m: Magnitude, c: Component)
    requires
        is_critical(threshold_spec(t, m), c),
        detail_spec(hw, threshold_spec(t, m), c).status == Status::Insuficiente,
    ensures
        evaluation_spec(hw, t, m).overall_status == Status::Insuficiente,
{
    lemma_overall_is_worst_critical(hw, t, m);
}

/// Every current value of `small` is at most the corresponding one of `big`.
pub open spec fn hardware_at_most(small: HardwareInfo, big: HardwareInfo) -> bool {
    forall|c: Component| #[trigger] actual_spec(small, c) <= actual_spec(big, c)
}

/// More hardware never gets a worse verdict. When every current value of
/// `small` is at most that of `big`, each component of `big` and each
/// workload as a whole is judged at least as well as for `small`.
pub proof fn lemma_more_hardware_never_worse(
    small: HardwareInfo,
    big: HardwareInfo,
    t: Task,
    m: Magnitude,
)
    requires
        hardware_at_most(small, big),
    ensures
        forall|c: Component|
            #![trigger detail_spec(big, threshold_spec(t, m), c)]
            status_rank(detail_spec(small, threshold_spec(t, m), c).status) <= status_rank(
                detail_spec(big, threshold_spec(t, m), c).status,
            ),
        status_rank(evaluation_spec(small, t, m).overall_status) <= status_rank(
            evaluation_spec(big, t, m).overall_status,
        ),
{
    let th = threshold_spec(t, m);
    lemma_table_well_formed(t, m);
    assert forall|c: Component|
        #![trigger detail_spec(big, th, c)]
        status_rank(detail_spec(small, th, c).status) <= status_rank(
            detail_spec(big, th, c).status,
        ) by {
        assert(actual_spec(small, c) <= actual_spec(big, c));
        assert(th.of(c).min <= th.of(c).ideal);
    }
    lemma_overall_is_worst_critical(small, t, m);
    lemma_overall_is_worst_critical(big, t, m);
    let ob = overall_spec(big, th);
    if ob != Status::Optimo {
        let c = choose|c: Component| #[trigger] is_critical(th, c) && detail_spec(big, th, c).status == ob;
        assert(status_rank(detail_spec(small, th, c).status) <= status_rank(ob));
    }
}

proof fn lemma_note_lengths(d: crate::engine::ComponentDetail)
    ensures
        insufficient_note(d).len() >= 2,
        sufficient_note(d).len() >= 2,
{
    reveal_strlit(": ");
}

proof fn lemma_insufficient_notes(hw: HardwareInfo, th: ThresholdView, cs: Seq<Component>)
    ensures
        insufficient_notes(hw, th, cs).len() > 0 <==> exists|j: int|
            0 <= j < cs.len() && is_critical(th, cs[j]) && #[trigger] detail_spec(hw, th, cs[j]).status
                == Status::Insuficiente,
        forall|i: int|
            0 <= i < insufficient_notes(hw, th, cs).len() ==> #[trigger] insufficient_notes(
                hw,
                th,
                cs,
            )[i].len() >= 2,
    decreases cs.len(),
{
    if cs.len() > 0 {
        let prev = cs.drop_last();
        lemma_insufficient_notes(hw, th, prev);
        lemma_note_lengths(detail_spec(hw, th, cs.last()));
        assert forall|j: int| 0 <= j < prev.len() implies prev[j] == cs[j] by {}
        if exists|j: int|
            0 <= j < cs.len() && is_critical(th, cs[j]) && #[trigger] detail_spec(hw, th, cs[j]).status
                == Status::Insuficiente {
            let j = choose|j: int|
                0 <= j < cs.len() && is_critical(th, cs[j]) && #[trigger] detail_spec(hw, th, cs[j]).status
                    == Status::Insuficiente;
            if j < prev.len() {
                assert(prev[j] == cs[j]);
            }
        }
    }
}

proof fn lemma_sufficient_notes(hw: HardwareInfo, th: ThresholdView, cs: Seq<Component>)
    ensures
        sufficient_notes(hw, th, cs).len() > 0 <==> exists|j: int|
            0 <= j < cs.len() && #[trigger] detail_spec(hw, th, cs[j]).status == Status::Suficiente,
        forall|i: int|
            0 <= i < sufficient_notes(hw, th, cs).len() ==> #[trigger] sufficient_notes(
                hw,
                th,
                cs,
            )[i].len() >= 2,
    decreases cs.len(),
{
    if cs.len() > 0 {
        let prev = cs.drop_last();
        lemma_sufficient_notes(hw, th, prev);
        lemma_note_lengths(detail_spec(hw, th, cs.last()));
        assert forall|j: int| 0 <= j < prev.len() implies prev[j] == cs[j] by {}
        if exists|j: int|
            0 <= j < cs.len() && #[trigger] detail_spec(hw, th, cs[j]).status == Status::Suficiente {
            let j = choose|j: int|
                0 <= j < cs.len() && #[trigger] detail_spec(hw, th, cs[j]).status
                    == Status::Suficiente;
            if j < prev.len() {
                assert(prev[j] == cs[j]);
            }
        }
    }
}

proof fn lemma_join_length(parts: Seq<Seq<char>>, sep: Seq<char>)
    requires
        parts.len() > 0,
        forall|i: int| 0 <= i < parts.len() ==> #[trigger] parts[i].len() >= 2,
    ensures
        join_with(parts, sep).len() >= 2,
    decreases parts.len(),
{
    if parts.len() > 1 {
        assert(parts.last() == parts[parts.len() - 1]);
    } else {
        assert(parts[0].len() >= 2);
    }
}

/// The bottleneck of a workload reads "—" exactly when the workload is
/// judged optimal.
pub proof fn lemma_bottleneck_empty_iff_optimal(hw: HardwareInfo, t: Task, m: Magnitude)
    ensures
        (evaluation_spec(hw, t, m).bottleneck == "—"@) <==> (evaluation_spec(hw, t, m).overall_status
            == Status::Optimo),
{
    let th = threshold_spec(t, m);
    let order = component_order();
    reveal_strlit("—");
    lemma_insufficient_notes(hw, th, order);
    lemma_sufficient_notes(hw, th, th.critical);
    lemma_overall_is_worst_critical(hw, t, m);
    let insufficient = insufficient_notes(hw, th, order);
    let overall = overall_spec(hw, th);
    let notes = crate::engine::bottleneck_notes(hw, th);
    if overall == Status::Suficiente && insufficient.len() == 0 {
        let c = choose|c: Component| #[trigger] is_critical(th, c) && detail_spec(hw, th, c).status == overall;
        let j = th.critical.index_of(c);
        assert(th.critical[j] == c);
        assert(notes.len() > 0);
    }
    if overall == Status::Insuficiente {
        let c = choose|c: Component| #[trigger] is_critical(th, c) && detail_spec(hw, th, c).status == overall;
        let j = component_index(c);
        assert(order[j] == c);
        assert(notes.len() > 0);
    }
    if overall == Status::Optimo {
        if insufficient.len() > 0 {
            let j = choose|j: int|
                0 <= j < order.len() && is_critical(th, order[j]) && #[trigger] detail_spec(
                    hw,
                    th,
                    order[j],
                ).status == Status::Insuficiente;
            assert(status_rank(overall) <= status_rank(detail_spec(hw, th, order[j]).status));
        }
        assert(notes.len() == 0);
    }
    if notes.len() > 0 {
        lemma_join_length(notes, " | "@);
    }
}

/// Without a graphics card the current VRAM is zero.
pub proof fn lemma_no_gpu_means_no_vram(hw: HardwareInfo)
    requires
        hw.gpu is None,
    ensures
        actual_spec(hw, Component::Vram) == 0,
{
}

/// `light` asks at most what `heavy` asks: no higher minimum or ideal for
/// any component, and no critical component that `heavy` does not have.
pub open spec fn asks_at_most(light: ThresholdView, heavy: ThresholdView) -> bool {
    &&& forall|c: Component|
        #![trigger light.of(c)]
        light.of(c).min <= heavy.of(c).min && light.of(c).ideal <= heavy.of(c).ideal
    &&& forall|c: Component| #[trigger] light.critical.contains(c) ==> heavy.critical.contains(c)
}

/// Within each workload, a less demanding magnitude asks at most what a
/// more demanding one asks.
pub proof fn lemma_magnitudes_ordered(t: Task)
    ensures
        asks_at_most(threshold_spec(t, Magnitude::Media), threshold_spec(t, Magnitude::Alta)),
        asks_at_most(threshold_spec(t, Magnitude::Baja), threshold_spec(t, Magnitude::Media)),
{
    let alta = threshold_spec(t, Magnitude::Alta);
    let media = threshold_spec(t, Magnitude::Media);
    let baja = threshold_spec(t, Magnitude::Baja);
    assert forall|c: Component| #[trigger] media.critical.contains(c) implies alta.critical.contains(c) by {
        let i = choose|i: int| 0 <= i < media.critical.len() && media.critical[i] == c;
        assert(alta.critical[i] == media.critical[i]);
    }
    assert forall|c: Component| #[trigger] baja.critical.contains(c) implies media.critical.contains(c) by {
        assert(media.critical[component_index(c)] == c || media.critical[component_index(c) - 1] == c);
    }
}

proof fn lemma_lighter_threshold_never_worse(
    hw: HardwareInfo,
    light: ThresholdView,
    heavy: ThresholdView,
)
    requires
        asks_at_most(light, heavy),
        forall|c: Component| #[trigger] heavy.of(c).min <= heavy.of(c).ideal,
    ensures
        forall|c: Component|
            #![trigger detail_spec(hw, light, c)]
            status_rank(detail_spec(hw, heavy, c).status) <= status_rank(
                detail_spec(hw, light, c).status,
            ),
        status_rank(overall_spec(hw, heavy)) <= status_rank(overall_spec(hw, light)),
{
    let order = component_order();
    assert forall|c: Component|
        #![trigger detail_spec(hw, light, c)]
        status_rank(detail_spec(hw, heavy, c).status) <= status_rank(
            detail_spec(hw, light, c).status,
        ) by {
        assert(light.of(c).min <= heavy.of(c).min);
        assert(heavy.of(c).min <= heavy.of(c).ideal);
    }
    let ol = overall_spec(hw, light);
    if ol != Status::Optimo {
        let j = choose|j: int|
            0 <= j < order.len() && is_critical(light, order[j]) && #[trigger] detail_spec(
                hw,
                light,
                order[j],
            ).status == ol;
        let c = order[j];
        assert(is_critical(heavy, c));
        assert(status_rank(detail_spec(hw, heavy, c).status) <= status_rank(ol));
        if detail_spec(hw, heavy, c).status == Status::Insuficiente {
            assert(detail_spec(hw, heavy, order[j]).status == Status::Insuficiente);
        } else {
            assert(detail_spec(hw, heavy, order[j]).status == Status::Suficiente);
        }
    }
}

/// Within a workload, a less demanding magnitude never gets a worse verdict
/// on the same hardware, neither for a component nor overall.
pub proof fn lemma_lighter_magnitude_never_worse(hw: HardwareInfo, t: Task)
    ensures
        forall|c: Component|
            #![trigger detail_spec(hw, threshold_spec(t, Magnitude::Media), c)]
            status_rank(detail_spec(hw, threshold_spec(t, Magnitude::Alta), c).status)
                <= status_rank(detail_spec(hw, threshold_spec(t, Magnitude::Media), c).status),
        forall|c: Component|
            #![trigger detail_spec(hw, threshold_spec(t, Magnitude::Baja), c)]
            status_rank(detail_spec(hw, threshold_spec(t, Magnitude::Media), c).status)
                <= status_rank(detail_spec(hw, threshold_spec(t, Magnitude::Baja), c).status),
        status_rank(evaluation_spec(hw, t, Magnitude::Alta).overall_status) <= status_rank(
            evaluation_spec(hw, t, Magnitude::Media).overall_status,
        ),
        status_rank(evaluation_spec(hw, t, Magnitude::Media).overall_status) <= status_rank(
            evaluation_spec(hw, t, Magnitude::Baja).overall_status,
        ),
{
    lemma_magnitudes_ordered(t);
    lemma_table_well_formed(t, Magnitude::Alta);
    lemma_table_well_formed(t, Magnitude::Media);
    lemma_lighter_threshold_never_worse(
        hw,
        threshold_spec(t, Magnitude::Media),
        threshold_spec(t, Magnitude::Alta),
    );
    lemma_lighter_threshold_never_worse(
        hw,
        threshold_spec(t, Magnitude::Baja),
        threshold_spec(t, Magnitude::Media),
    );
}

/// The critical components of each workload: those of its most demanding
/// magnitude, which its other magnitudes only narrow.
pub open spec fn workload_critical(t: Task) -> Set<Component> {
    match t {
        Task::IaGenerativa => set![Component::Ram, Component::Vram, Component::Cores],
        Task::DataScience => set![Component::Ram, Component::Cores],
        Task::BasesDeDatos => set![Component::Ram, Component::Cores, Component::Storage],
        Task::Gaming => set![Component::Ram, Component::Vram, Component::Cores],
        Task::UsoGeneral => set![Component::Ram, Component::Cores],
    }
}

/// Every magnitude of a workload counts only the workload's critical
/// components, and its most demanding magnitude counts all of them.
pub proof fn lemma_workload_critical_components(t: Task, m: Magnitude)
    ensures
        forall|c: Component| #[trigger] threshold_spec(t, m).critical.contains(c) ==> workload_critical(t).contains(c),
        forall|c: Component|
            #[trigger] workload_critical(t).contains(c) ==> threshold_spec(t, Magnitude::Alta).critical.contains(c),
{
    lemma_magnitudes_ordered(t);
    let alta = threshold_spec(t, Magnitude::Alta);
    assert forall|c: Component| #[trigger] alta.critical.contains(c) implies workload_critical(t).contains(c) by {
        let i = choose|i: int| 0 <= i < alta.critical.len() && alta.critical[i] == c;
        assert(alta.critical[i] == c);
    }
    assert forall|c: Component| #[trigger] workload_critical(t).contains(c) implies alta.critical.contains(c) by {
        assert(alta.critical[component_index(c)] == c || alta.critical[component_index(c) - 1] == c);
    }
}

proof fn lemma_notes_follow_critical(
    hw1: HardwareInfo,
    hw2: HardwareInfo,
    th: ThresholdView,
    cs: Seq<Component>,
)
    requires
        forall|c: Component| #[trigger] is_critical(th, c) ==> detail_spec(hw1, th, c) == detail_spec(hw2, th, c),
        forall|i: int| 0 <= i < cs.len() ==> is_critical(th, #[trigger] cs[i]),
    ensures
        sufficient_notes(hw1, th, cs) == sufficient_notes(hw2, th, cs),
    decreases cs.len(),
{
    if cs.len() > 0 {
        let prev = cs.drop_last();
        assert forall|i: int| 0 <= i < prev.len() implies is_critical(th, #[trigger] prev[i]) by {
            assert(prev[i] == cs[i]);
        }
        lemma_notes_follow_critical(hw1, hw2, th, prev);
        assert(is_critical(th, cs[cs.len() - 1]));
    }
}

proof fn lemma_insufficient_notes_follow_critical(
    hw1: HardwareInfo,
    hw2: HardwareInfo,
    th: ThresholdView,
    cs: Seq<Component>,
)
    requires
        forall|c: Component| #[trigger] is_critical(th, c) ==> detail_spec(hw1, th, c) == detail_spec(hw2, th, c),
    ensures
        insufficient_notes(hw1, th, cs) == insufficient_notes(hw2, th, cs),
    decreases cs.len(),
{
    if cs.len() > 0 {
        lemma_insufficient_notes_follow_critical(hw1, hw2, th, cs.drop_last());
    }
}

/// Only the critical components of a workload decide its verdict and its
/// bottleneck: two machines whose critical components have the same current
/// values get the same overall verdict and the same bottleneck text.
pub proof fn lemma_only_critical_components_decide(
    hw1: HardwareInfo,
    hw2: HardwareInfo,
    t: Task,
    m: Magnitude,
)
    requires
        forall|c: Component|
            #[trigger] threshold_spec(t, m).critical.contains(c) ==> actual_spec(hw1, c) == actual_spec(
                hw2,
                c,
            ),
    ensures
        evaluation_spec(hw1, t, m).overall_status == evaluation_spec(hw2, t, m).overall_status,
        evaluation_spec(hw1, t, m).bottleneck == evaluation_spec(hw2, t, m).bottleneck,
{
    let th = threshold_spec(t, m);
    let order = component_order();
    assert forall|c: Component| #[trigger] is_critical(th, c) implies detail_spec(hw1, th, c)
        == detail_spec(hw2, th, c) by {
        assert(th.critical.contains(c));
    }
    lemma_insufficient_notes_follow_critical(hw1, hw2, th, order);
    assert forall|i: int| 0 <= i < th.critical.len() implies is_critical(th, #[trigger] th.critical[i]) by {
        assert(th.critical.contains(th.critical[i]));
    }
    lemma_notes_follow_critical(hw1, hw2, th, th.critical);
    assert(overall_spec(hw1, th) == overall_spec(hw2, th)) by {
        assert forall|j: int| 0 <= j < order.len() && is_critical(th, order[j]) implies #[trigger] detail_spec(
            hw1,
            th,
            order[j],
        ) == detail_spec(hw2, th, order[j]) by {}
    }
}

/// Which components count toward the verdict of each (workload, magnitude)
/// pair: RAM always; VRAM for generative AI and gaming except at low
/// magnitude; cores at high magnitude, and at medium magnitude for data
/// science and databases; storage for databases only.
pub open spec fn counts_toward_verdict(t: Task, m: Magnitude, c: Component) -> bool {
    match c {
        Component::Ram => true,
        Component::Vram => (t == Task::IaGenerativa || t == Task::Gaming) && m != Magnitude::Baja,
        Component::Cores => m == Magnitude::Alta || (m == Magnitude::Media && (t
            == Task::DataScience || t == Task::BasesDeDatos)),
        Component::Storage => t == Task::BasesDeDatos,
    }
}

/// The critical components of every (workload, magnitude) pair are exactly
/// those that count toward its verdict, listed once each in evaluation
/// order.
pub proof fn lemma_critical_components(t: Task, m: Magnitude)
    ensures
        forall|c: Component|
            #[trigger] threshold_spec(t, m).critical.contains(c) <==> counts_toward_verdict(t, m, c),
        forall|i: int, j: int|
            0 <= i < j < threshold_spec(t, m).critical.len() ==> component_index(
                #[trigger] threshold_spec(t, m).critical[i],
            ) < component_index(#[trigger] threshold_spec(t, m).critical[j]),
{
    let cs = threshold_spec(t, m).critical;
    assert forall|c: Component| #[trigger] cs.contains(c) <==> counts_toward_verdict(t, m, c) by {
        if counts_toward_verdict(t, m, c) {
            assert(cs[component_index(c)] == c || cs[component_index(c) - 1] == c || cs[component_index(c) - 2] == c);
        }
        if cs.contains(c) {
            let k = choose|k: int| 0 <= k < cs.len() && cs[k] == c;
            assert(cs[k] == c);
        }
    }
}

/// Without a graphics card, generative AI and gaming at high and medium
/// magnitude are judged insufficient, whatever the rest of the hardware.
pub proof fn lemma_no_gpu_fails_graphics_workloads(hw: HardwareInfo, t: Task, m: Magnitude)
    requires
        hw.gpu is None,
        t == Task::IaGenerativa || t == Task::Gaming,
        m == Magnitude::Alta || m == Magnitude::Media,
    ensures
        evaluation_spec(hw, t, m).overall_status == Status::Insuficiente,
        evaluation_spec(hw, t, m).details[1].status == Status::Insuficiente,
{
    lemma_critical_components(t, m);
    assert(threshold_spec(t, m).critical.contains(Component::Vram));
    assert(threshold_spec(t, m).vram.min > 0);
    lemma_one_insufficient_decides(hw, t, m, Component::Vram);
    assert(component_order()[1] == Component::Vram);
}

/// The workloads are named as the report shows them, and each name leads
/// back to its workload; no other text names a workload.
pub proof fn lemma_workload_names()
    ensures
        task_name(Task::IaGenerativa) == "IA Generativa"@,
        task_name(Task::DataScience) == "Data Science"@,
        task_name(Task::BasesDeDatos) == "Bases de Datos"@,
        task_name(Task::Gaming) == "Gaming"@,
        task_name(Task::UsoGeneral) == "Uso General"@,
        task_from_name("IA Generativa"@) == Some(Task::IaGenerativa),
        task_from_name("Data Science"@) == Some(Task::DataScience),
        task_from_name("Bases de Datos"@) == Some(Task::BasesDeDatos),
        task_from_name("Gaming"@) == Some(Task::Gaming),
        task_from_name("Uso General"@) == Some(Task::UsoGeneral),
        forall|s: Seq<char>|
            #[trigger] task_from_name(s) is Some ==> s == "IA Generativa"@ || s == "Data Science"@
                || s == "Bases de Datos"@ || s == "Gaming"@ || s == "Uso General"@,
        forall|s: Seq<char>| #[trigger] task_from_name(s) is Some ==> task_name(task_from_name(s)->0) == s,
{
    crate::rules::lemma_task_names(Task::IaGenerativa);
    crate::rules::lemma_task_names(Task::DataScience);
    crate::rules::lemma_task_names(Task::BasesDeDatos);
    crate::rules::lemma_task_names(Task::Gaming);
    crate::rules::lemma_task_names(Task::UsoGeneral);
}

/// Data science is the workload of data pipelines and notebooks and
/// databases the one of database servers: the database rows are the only
/// ones that count storage and leave VRAM unevaluated at every magnitude,
/// and data science asks for some VRAM at its two higher magnitudes.
pub proof fn lemma_workload_rows(m: Magnitude)
    ensures
        threshold_spec(Task::BasesDeDatos, m).critical.contains(Component::Storage),
        threshold_spec(Task::BasesDeDatos, m).vram.min == 0 && threshold_spec(
            Task::BasesDeDatos,
            m,
        ).vram.ideal == 0,
        forall|t: Task| t != Task::BasesDeDatos ==> !#[trigger] threshold_spec(t, m).critical.contains(Component::Storage),
        m != Magnitude::Baja ==> threshold_spec(Task::DataScience, m).vram.min > 0,
        threshold_spec(Task::DataScience, m).vram.ideal > 0,
{
    lemma_critical_components(Task::BasesDeDatos, m);
    assert forall|t: Task| t != Task::BasesDeDatos implies !#[trigger] threshold_spec(t, m).critical.contains(Component::Storage) by {
        lemma_critical_components(t, m);
    }
}

/// The value compared with each threshold is the total RAM, the total VRAM
/// of the graphics card (zero without one), ten times the physical cores
/// and the free storage.
pub proof fn lemma_compared_values(hw: HardwareInfo)
    ensures
        actual_spec(hw, Component::Ram) == hw.ram.total_gb_tenths,
        hw.gpu matches Some(g) ==> actual_spec(hw, Component::Vram) == g.vram_total_gb_tenths,
        hw.gpu is None ==> actual_spec(hw, Component::Vram) == 0,
        actual_spec(hw, Component::Cores) == 10 * hw.cpu.physical_cores,
        actual_spec(hw, Component::Storage) == hw.storage.free_gb_tenths,
{
}

/// How much VRAM is in use does not matter: two cards of the same total
/// VRAM give the same compared value, and so the same verdicts.
pub proof fn lemma_vram_in_use_does_not_matter(hw1: HardwareInfo, hw2: HardwareInfo, t: Task, m: Magnitude)
    requires
        hw1.gpu is Some,
        hw2.gpu is Some,
        hw1.gpu->0.vram_total_gb_tenths == hw2.gpu->0.vram_total_gb_tenths,
        hw1.ram.total_gb_tenths == hw2.ram.total_gb_tenths,
        hw1.cpu.physical_cores == hw2.cpu.physical_cores,
        hw1.storage.free_gb_tenths == hw2.storage.free_gb_tenths,
    ensures
        forall|c: Component| #[trigger] actual_spec(hw1, c) == actual_spec(hw2, c),
        evaluation_spec(hw1, t, m) == evaluation_spec(hw2, t, m),
{
    let th = threshold_spec(t, m);
    assert forall|c: Component| #[trigger] actual_spec(hw1, c) == actual_spec(hw2, c) by {}
    assert forall|c: Component| #[trigger] detail_spec(hw1, th, c) == detail_spec(hw2, th, c) by {}
    lemma_only_critical_components_decide(hw1, hw2, t, m);
    assert(crate::engine::details_spec(hw1, th) =~= crate::engine::details_spec(hw2, th));
}

/// The main disk is the first disk mounted at the root when there is one;
/// otherwise no disk is larger in total space than the main disk, and every
/// disk after it is smaller. There is at most one main disk.
pub proof fn lemma_main_disk(disks: Seq<DiskSample>, i: int, k: int)
    requires
        is_main_disk(disks, i),
    ensures
        0 <= i < disks.len(),
        (exists|j: int| 0 <= j < disks.len() && #[trigger] is_root_path(disks[j].mount_point@))
            ==> is_root_path(disks[i].mount_point@) && forall|j: int|
            0 <= j < i ==> !#[trigger] is_root_path(disks[j].mount_point@),
        (forall|j: int| 0 <= j < disks.len() ==> !#[trigger] is_root_path(disks[j].mount_point@))
            ==> (forall|j: int|
            0 <= j < disks.len() ==> #[trigger] disks[j].total_space <= disks[i].total_space) && (
        forall|j: int| i < j < disks.len() ==> #[trigger] disks[j].total_space
            < disks[i].total_space),
        is_main_disk(disks, k) ==> k == i,
{
    if exists|j: int| 0 <= j < disks.len() && #[trigger] is_root_path(disks[j].mount_point@) {
        let j = choose|j: int| 0 <= j < disks.len() && #[trigger] is_root_path(disks[j].mount_point@);
        assert(crate::scanner::is_root_disk(disks[j]));
        assert forall|l: int| 0 <= l < i implies !#[trigger] is_root_path(disks[l].mount_point@) by {
            assert(!crate::scanner::is_root_disk(disks[l]));
        }
        assert(crate::scanner::is_root_disk(disks[i]));
    } else {
        assert forall|l: int| 0 <= l < disks.len() implies !#[trigger] crate::scanner::is_root_disk(disks[l]) by {
            assert(!is_root_path(disks[l].mount_point@));
        }
    }
    if is_main_disk(disks, k) && k != i {
        let (a, b) = if k < i { (k, i) } else { (i, k) };
        assert(is_main_disk(disks, a) && is_main_disk(disks, b) && a < b);
        if exists|j: int| 0 <= j < disks.len() && #[trigger] crate::scanner::is_root_disk(disks[j]) {
            assert(crate::scanner::is_root_disk(disks[a]));
            assert(!crate::scanner::is_root_disk(disks[a]));
        } else {
            assert(disks[b].total_space < disks[a].total_space);
            assert(disks[a].total_space <= disks[b].total_space);
        }
    }
}

proof fn lemma_main_disk_transfers(d1: Seq<DiskSample>, d2: Seq<DiskSample>, i: int)
    requires
        d1.len() == d2.len(),
        forall|j: int|
            #![trigger d1[j]]
            0 <= j < d1.len() ==> d1[j].mount_point@ == d2[j].mount_point@ && d1[j].total_space
                == d2[j].total_space,
        is_main_disk(d1, i),
    ensures
        is_main_disk(d2, i),
{
    let root1 = exists|j: int| 0 <= j < d1.len() && #[trigger] crate::scanner::is_root_disk(d1[j]);
    assert(d1[i].total_space == d2[i].total_space);
    if root1 {
        let j = choose|j: int| 0 <= j < d1.len() && #[trigger] crate::scanner::is_root_disk(d1[j]);
        assert(d1[j].mount_point@ == d2[j].mount_point@);
        assert(crate::scanner::is_root_disk(d2[j]));
        assert(d1[i].mount_point@ == d2[i].mount_point@);
        assert forall|l: int| 0 <= l < i implies !#[trigger] crate::scanner::is_root_disk(d2[l]) by {
            assert(d1[l].mount_point@ == d2[l].mount_point@);
            assert(!crate::scanner::is_root_disk(d1[l]));
        }
    } else {
        assert forall|l: int| 0 <= l < d2.len() implies !#[trigger] crate::scanner::is_root_disk(d2[l]) by {
            assert(d1[l].mount_point@ == d2[l].mount_point@);
            assert(!crate::scanner::is_root_disk(d1[l]));
        }
        assert forall|l: int| 0 <= l < d2.len() implies #[trigger] d2[l].total_space <= d2[i].total_space by {
            assert(d1[l].total_space == d2[l].total_space);
            assert(d1[l].total_space <= d1[i].total_space);
        }
        assert forall|l: int| i < l < d2.len() implies #[trigger] d2[l].total_space < d2[i].total_space by {
            assert(d1[l].total_space == d2[l].total_space);
            assert(d1[l].total_space < d1[i].total_space);
        }
    }
}

/// The available space of the disks does not affect which one is the main
/// disk: only mount points and total sizes do.
pub proof fn lemma_main_disk_ignores_free_space(d1: Seq<DiskSample>, d2: Seq<DiskSample>, i: int)
    requires
        d1.len() == d2.len(),
        forall|j: int|
            #![trigger d1[j]]
            0 <= j < d1.len() ==> d1[j].mount_point@ == d2[j].mount_point@ && d1[j].total_space
                == d2[j].total_space,
    ensures
        is_main_disk(d1, i) <==> is_main_disk(d2, i),
{
    if is_main_disk(d1, i) {
        lemma_main_disk_transfers(d1, d2, i);
    }
    if is_main_disk(d2, i) {
        assert forall|j: int|
            #![trigger d2[j]]
            0 <= j < d2.len() implies d2[j].mount_point@ == d1[j].mount_point@ && d2[j].total_space
                == d1[j].total_space by {
            assert(d1[j].mount_point@ == d2[j].mount_point@);
        }
        lemma_main_disk_transfers(d2, d1, i);
    }
}

proof fn lemma_prefix_suffix(a: Seq<char>, b: Seq<char>, c: Seq<char>)
    ensures
        a.is_prefix_of(a + b + c),
        c.is_suffix_of(a + b + c),
{
    assert(a =~= (a + b + c).subrange(0, a.len() as int));
    assert(c =~= (a + b + c).subrange((a + b + c).len() - c.len(), (a + b + c).len() as int));
}

/// The graphics card panel opens with the card's name and its total VRAM,
/// and closes with its free VRAM and its driver version.
pub proof fn lemma_gpu_panel(g: GpuInfo)
    ensures
        ("  Modelo:     "@ + g.name@ + "\n  VRAM Total: "@ + format_gb_spec(g.vram_total_gb_tenths as nat)
            + "\n"@).is_prefix_of(gpu_summary_spec(Some(g))),
        ("\n  VRAM Libre: "@ + format_gb_spec(g.vram_free_gb_tenths as nat) + "\n  Driver:     "@
            + g.driver_version@).is_suffix_of(gpu_summary_spec(Some(g))),
{
    let head = "  Modelo:     "@ + g.name@ + "\n  VRAM Total: "@ + format_gb_spec(
        g.vram_total_gb_tenths as nat,
    );
    let tail = "\n  VRAM Libre: "@ + format_gb_spec(g.vram_free_gb_tenths as nat) + "\n  Driver:     "@
        + g.driver_version@;
    reveal_strlit("\n  VRAM Libre: ");
    reveal_strlit("\n");
    let nl = "\n"@;
    let mid = tail.skip(1);
    assert(tail =~= nl + mid);
    assert(gpu_summary_spec(Some(g)) =~= head + tail);
    assert(head + tail =~= (head + nl) + mid + Seq::empty());
    lemma_prefix_suffix(head + nl, mid, Seq::empty());
    lemma_prefix_suffix(head, Seq::empty(), tail);
    assert(head + Seq::empty() + tail =~= head + tail);
}

/// The memory panel opens with the total and the available memory, and
/// closes with the share in use.
pub proof fn lemma_ram_panel(ram: RamInfo)
    ensures
        ("  Total:      "@ + format_gb_spec(ram.total_gb_tenths as nat) + "\n  Disponible: "@
            + format_gb_spec(ram.available_gb_tenths as nat)).is_prefix_of(ram_summary_spec(ram)),
        ("\n  En uso:     "@ + fixed_tenths(ram.percent_used_tenths as nat) + "%"@).is_suffix_of(
            ram_summary_spec(ram),
        ),
{
    let head = "  Total:      "@ + format_gb_spec(ram.total_gb_tenths as nat) + "\n  Disponible: "@
        + format_gb_spec(ram.available_gb_tenths as nat);
    let tail = "\n  En uso:     "@ + fixed_tenths(ram.percent_used_tenths as nat) + "%"@;
    assert(ram_summary_spec(ram) =~= head + Seq::empty() + tail);
    lemma_prefix_suffix(head, Seq::empty(), tail);
}

/// The storage panel opens with the total and the free space, and closes
/// with the share in use.
pub proof fn lemma_storage_panel(storage: StorageInfo)
    ensures
        ("  Total:  "@ + format_gb_spec(storage.total_gb_tenths as nat) + "\n  Libre:  "@
            + format_gb_spec(storage.free_gb_tenths as nat)).is_prefix_of(
            storage_summary_spec(storage),
        ),
        ("\n  En uso: "@ + signed_fixed_tenths(storage.percent_used_tenths as int) + "%"@).is_suffix_of(
            storage_summary_spec(storage),
        ),
{
    let head = "  Total:  "@ + format_gb_spec(storage.total_gb_tenths as nat) + "\n  Libre:  "@
        + format_gb_spec(storage.free_gb_tenths as nat);
    let tail = "\n  En uso: "@ + signed_fixed_tenths(storage.percent_used_tenths as int) + "%"@;
    assert(storage_summary_spec(storage) =~= head + Seq::empty() + tail);
    lemma_prefix_suffix(head, Seq::empty(), tail);
}

/// The components are identified as "ram", "vram", "cores" and "storage",
/// each identifier leads back to its component, and each component has its
/// readable name and unit.
pub proof fn lemma_component_identifiers()
    ensures
        component_name(Component::Ram) == "ram"@,
        component_name(Component::Vram) == "vram"@,
        component_name(Component::Cores) == "cores"@,
        component_name(Component::Storage) == "storage"@,
        component_from_name("ram"@) == Some(Component::Ram),
        component_from_name("vram"@) == Some(Component::Vram),
        component_from_name("cores"@) == Some(Component::Cores),
        component_from_name("storage"@) == Some(Component::Storage),
        forall|s: Seq<char>|
            #[trigger] component_from_name(s) is Some ==> component_name(component_from_name(s)->0) == s,
        component_label_of(Component::Ram) == "RAM"@,
        component_label_of(Component::Vram) == "VRAM (GPU)"@,
        component_label_of(Component::Cores) == "Núcleos CPU"@,
        component_label_of(Component::Storage) == "Almacenamiento"@,
        component_unit_of(Component::Cores) == "núcleos"@,
        component_unit_of(Component::Ram) == "GB"@,
        component_unit_of(Component::Vram) == "GB"@,
        component_unit_of(Component::Storage) == "GB"@,
{
    lemma_component_names(Component::Ram);
    lemma_component_names(Component::Vram);
    lemma_component_names(Component::Cores);
    lemma_component_names(Component::Storage);
}

} // verus!
