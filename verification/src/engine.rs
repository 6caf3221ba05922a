//! The evaluation: each component is judged against its threshold, and each
//! workload gets the worst verdict of its critical components together with
//! a description of its bottleneck.
use vstd::prelude::*;
use crate::rules::{
    Component, ComponentThreshold, Magnitude, Task, Threshold, ThresholdView, component_index,
    component_label_of, component_order, component_unit_of, find_threshold, is_evaluated,
    lemma_pair_index, lemma_task_names, pair_index, task_index, task_name, threshold_spec,
    thresholds,
};
use crate::scanner::{HardwareInfo, actual_spec};
use crate::text::{
    fixed_tenths, join, join_with, push_fixed_tenths, push_short_tenths, short_tenths,
    string_views,
};

verus! {

/// Verdict for one component, or for a whole workload, from worst to best.
#[derive(Debug, Clone, Copy, PartialEq, Eq, Structural, PartialOrd, Ord, Hash)]
pub enum Status {
    Insuficiente,
    Suficiente,
    Optimo,
}

/// Position of a verdict from worst (0) to best (2).
pub open spec fn status_rank(s: Status) -> int {
    match s {
        Status::Insuficiente => 0,
        Status::Suficiente => 1,
        Status::Optimo => 2,
    }
}

/// The label of a verdict.
pub open spec fn status_label(s: Status) -> Seq<char> {
    match s {
        Status::Insuficiente => "INSUFICIENTE"@,
        Status::Suficiente => "SUFICIENTE"@,
        Status::Optimo => "ÓPTIMO"@,
    }
}

/// The colored mark of a verdict.
pub open spec fn status_emoji(s: Status) -> Seq<char> {
    match s {
        Status::Insuficiente => "🔴"@,
        Status::Suficiente => "🟡"@,
        Status::Optimo => "🟢"@,
    }
}

/// The text of a verdict, made of its mark, a space and its label.
pub open spec fn status_text(s: Status) -> Seq<char> {
    status_emoji(s) + " "@ + status_label(s)
}

impl Status {
    /// The label of the verdict.
    pub fn label(&self) -> (r: &'static str)
        ensures
            r@ == status_label(*self),
    {
        match self {
            Status::Insuficiente => "INSUFICIENTE",
            Status::Suficiente => "SUFICIENTE",
            Status::Optimo => "ÓPTIMO",
        }
    }

    /// The colored mark of the verdict.
    pub fn emoji(&self) -> (r: &'static str)
        ensures
            r@ == status_emoji(*self),
    {
        match self {
            Status::Insuficiente => "🔴",
            Status::Suficiente => "🟡",
            Status::Optimo => "🟢",
        }
    }

    /// The text of the verdict, made of its mark, a space and its label.
    pub fn to_string(&self) -> (r: String)
        ensures
            r@ == status_text(*self),
    {
        let mut r = String::from_str(self.emoji());
        r.append(" ");
        r.append(self.label());
        r
    }

    /// Position of the verdict from worst (0) to best (2).
    pub fn rank(&self) -> (r: u8)
        ensures
            r == status_rank(*self),
    {
        match self {
            Status::Insuficiente => 0,
            Status::Suficiente => 1,
            Status::Optimo => 2,
        }
    }
}

/// The verdict of a component whose current value is `actual` against its
/// threshold: optimal when the threshold asks nothing, insufficient below
/// the minimum, optimal from the ideal on, sufficient in between.
pub open spec fn evaluate_component_spec(actual: int, ct: ComponentThreshold) -> Status {
    if !is_evaluated(ct) {
        Status::Optimo
    } else if actual < ct.min {
        Status::Insuficiente
    } else if actual >= ct.ideal {
        Status::Optimo
    } else {
        Status::Suficiente
    }
}

/// Judges a current value, in tenths, against its threshold.
pub fn evaluate_component(actual: u128, thresh: &ComponentThreshold) -> (r: Status)
    ensures
        r == evaluate_component_spec(actual as int, *thresh),
{
    if thresh.min == 0 && thresh.ideal == 0 {
        return Status::Optimo;
    }
    if actual < thresh.min as u128 {
        return Status::Insuficiente;
    }
    if actual >= thresh.ideal as u128 {
        return Status::Optimo;
    }
    Status::Suficiente
}

/// The verdict on one component for one workload.
#[derive(Debug, Clone, Copy, PartialEq, Eq, Structural)]
pub struct ComponentDetail {
    pub name: Component,
    pub status: Status,
    /// Current value, in tenths of the component's unit.
    pub actual: u128,
    /// Minimum, in tenths of the component's unit.
    pub min: u64,
    /// Ideal, in tenths of the component's unit.
    pub ideal: u64,
}

/// The table cell of a component verdict, which is "N/A" when its threshold asks
/// nothing, the verdict's text otherwise.
pub open spec fn detail_cell_spec(d: ComponentDetail) -> Seq<char> {
    if d.min == 0 && d.ideal == 0 {
        "N/A"@
    } else {
        status_text(d.status)
    }
}

/// The current value of a component verdict with its unit, such as "15.6 GB".
pub open spec fn detail_actual_spec(d: ComponentDetail) -> Seq<char> {
    fixed_tenths(d.actual as nat) + " "@ + component_unit_of(d.name)
}

/// The minimum of a component verdict with its unit, such as "16 GB".
pub open spec fn detail_min_spec(d: ComponentDetail) -> Seq<char> {
    short_tenths(d.min as nat) + " "@ + component_unit_of(d.name)
}

/// The ideal of a component verdict with its unit, such as "32 GB".
pub open spec fn detail_ideal_spec(d: ComponentDetail) -> Seq<char> {
    short_tenths(d.ideal as nat) + " "@ + component_unit_of(d.name)
}

impl ComponentDetail {
    /// Whether the threshold of this verdict asks anything of the component.
    pub fn is_evaluated(&self) -> (r: bool)
        ensures
            r == !(self.min == 0 && self.ideal == 0),
    {
        !(self.min == 0 && self.ideal == 0)
    }

    /// The current value with its unit, as the detail panels show it.
    pub fn actual_text(&self) -> (r: String)
        ensures
            r@ == detail_actual_spec(*self),
    {
        let mut r = String::new();
        push_fixed_tenths(&mut r, self.actual);
        r.append(" ");
        r.append(self.name.unit());
        r
    }

    /// The minimum with its unit, as the detail panels show it.
    pub fn min_text(&self) -> (r: String)
        ensures
            r@ == detail_min_spec(*self),
    {
        let mut r = String::new();
        push_short_tenths(&mut r, self.min as u128);
        r.append(" ");
        r.append(self.name.unit());
        r
    }

    /// The ideal with its unit, as the detail panels show it.
    pub fn ideal_text(&self) -> (r: String)
        ensures
            r@ == detail_ideal_spec(*self),
    {
        let mut r = String::new();
        push_short_tenths(&mut r, self.ideal as u128);
        r.append(" ");
        r.append(self.name.unit());
        r
    }

    /// The table cell of this verdict.
    pub fn cell_text(&self) -> (r: String)
        ensures
            r@ == detail_cell_spec(*self),
    {
        if self.min == 0 && self.ideal == 0 {
            String::from_str("N/A")
        } else {
            self.status.to_string()
        }
    }
}

/// The verdict on workload `th` for component `c` of the hardware `hw`.
pub open spec fn detail_spec(hw: HardwareInfo, th: ThresholdView, c: Component) -> ComponentDetail {
    ComponentDetail {
        name: c,
        status: evaluate_component_spec(actual_spec(hw, c), th.of(c)),
        actual: actual_spec(hw, c) as u128,
        min: th.of(c).min,
        ideal: th.of(c).ideal,
    }
}

/// The verdicts on all components, in evaluation order.
pub open spec fn details_spec(hw: HardwareInfo, th: ThresholdView) -> Seq<ComponentDetail> {
    component_order().map_values(|c: Component| detail_spec(hw, th, c))
}

/// Whether `c` is a critical component of `th`.
pub open spec fn is_critical(th: ThresholdView, c: Component) -> bool {
    th.critical.contains(c)
}

/// The worst verdict among the critical components in `cs`; optimal when
/// there is none.
pub open spec fn worst_among(hw: HardwareInfo, th: ThresholdView, cs: Seq<Component>) -> Status {
    if exists|j: int|
        0 <= j < cs.len() && is_critical(th, cs[j]) && #[trigger] detail_spec(hw, th, cs[j]).status
            == Status::Insuficiente {
        Status::Insuficiente
    } else if exists|j: int|
        0 <= j < cs.len() && is_critical(th, cs[j]) && #[trigger] detail_spec(hw, th, cs[j]).status
            == Status::Suficiente {
        Status::Suficiente
    } else {
        Status::Optimo
    }
}

/// The overall verdict of a workload: the worst verdict among its critical
/// components.
pub open spec fn overall_spec(hw: HardwareInfo, th: ThresholdView) -> Status {
    worst_among(hw, th, component_order())
}

/// The note on a component below its minimum, such as
/// "RAM: 7.6 GB < 8 GB mín".
pub open spec fn insufficient_note(d: ComponentDetail) -> Seq<char> {
    component_label_of(d.name) + ": "@ + fixed_tenths(d.actual as nat) + " "@ + component_unit_of(
        d.name,
    ) + " < "@ + short_tenths(d.min as nat) + " "@ + component_unit_of(d.name) + " mín"@
}

/// The note on a component that is sufficient but not ideal, such as
/// "RAM: 15.6 GB (ideal: 32 GB)".
pub open spec fn sufficient_note(d: ComponentDetail) -> Seq<char> {
    component_label_of(d.name) + ": "@ + fixed_tenths(d.actual as nat) + " "@ + component_unit_of(
        d.name,
    ) + " (ideal: "@ + short_tenths(d.ideal as nat) + " "@ + component_unit_of(d.name) + ")"@
}

/// The notes on the critical components in `cs` that are insufficient, in
/// the order of `cs`.
pub open spec fn insufficient_notes(hw: HardwareInfo, th: ThresholdView, cs: Seq<Component>) -> Seq<
    Seq<char>,
>
    decreases cs.len(),
{
    if cs.len() == 0 {
        Seq::empty()
    } else {
        let earlier = insufficient_notes(hw, th, cs.drop_last());
        let d = detail_spec(hw, th, cs.last());
        if is_critical(th, cs.last()) && d.status == Status::Insuficiente {
            earlier.push(insufficient_note(d))
        } else {
            earlier
        }
    }
}

/// The notes on the components in `cs` that are sufficient but not ideal,
/// in the order of `cs`.
pub open spec fn sufficient_notes(hw: HardwareInfo, th: ThresholdView, cs: Seq<Component>) -> Seq<
    Seq<char>,
>
    decreases cs.len(),
{
    if cs.len() == 0 {
        Seq::empty()
    } else {
        let earlier = sufficient_notes(hw, th, cs.drop_last());
        let d = detail_spec(hw, th, cs.last());
        if d.status == Status::Suficiente {
            earlier.push(sufficient_note(d))
        } else {
            earlier
        }
    }
}

/// The notes that explain the overall verdict of a workload: the
/// insufficient critical components; when there is none and the verdict is
/// sufficient, the critical components that fall short of their ideal.
pub open spec fn bottleneck_notes(hw: HardwareInfo, th: ThresholdView) -> Seq<Seq<char>> {
    let insufficient = insufficient_notes(hw, th, component_order());
    if overall_spec(hw, th) == Status::Suficiente && insufficient.len() == 0 {
        sufficient_notes(hw, th, th.critical)
    } else {
        insufficient
    }
}

/// The bottleneck text: the notes joined with " | ", or "—" when there is
/// none.
pub open spec fn bottleneck_spec(hw: HardwareInfo, th: ThresholdView) -> Seq<char> {
    let notes = bottleneck_notes(hw, th);
    if notes.len() == 0 {
        "—"@
    } else {
        join_with(notes, " | "@)
    }
}

/// The evaluation of one workload.
#[derive(Debug, Clone)]
pub struct EvalResult {
    pub task: Task,
    pub magnitude: Magnitude,
    pub description: &'static str,
    pub overall_status: Status,
    pub bottleneck: String,
    pub details: Vec<ComponentDetail>,
}

/// The mathematical content of an [`EvalResult`].
#[verifier::ext_equal]
pub struct EvalResultView {
    pub task: Task,
    pub magnitude: Magnitude,
    pub description: Seq<char>,
    pub overall_status: Status,
    pub bottleneck: Seq<char>,
    pub details: Seq<ComponentDetail>,
}

impl View for EvalResult {
    type V = EvalResultView;

    open spec fn view(&self) -> EvalResultView {
        EvalResultView {
            task: self.task,
            magnitude: self.magnitude,
            description: self.description@,
            overall_status: self.overall_status,
            bottleneck: self.bottleneck@,
            details: self.details@,
        }
    }
}

/// The title of the detail panel of a workload: its name followed by
/// " — Carga Alta".
pub open spec fn panel_title_spec(t: Task) -> Seq<char> {
    task_name(t) + " — Carga Alta"@
}

impl EvalResult {
    /// The title of the detail panel of this workload.
    pub fn panel_title(&self) -> (r: String)
        ensures
            r@ == panel_title_spec(self.task),
    {
        let mut r = String::from_str(self.task.name());
        r.append(" — Carga Alta");
        r
    }
}

/// The evaluation of the hardware `hw` against the threshold `th`.
pub open spec fn eval_result_spec(hw: HardwareInfo, th: ThresholdView) -> EvalResultView {
    EvalResultView {
        task: th.task,
        magnitude: th.magnitude,
        description: th.description,
        overall_status: overall_spec(hw, th),
        bottleneck: bottleneck_spec(hw, th),
        details: details_spec(hw, th),
    }
}

/// The evaluation of the hardware `hw` for a (workload, magnitude) pair.
pub open spec fn evaluation_spec(hw: HardwareInfo, t: Task, m: Magnitude) -> EvalResultView {
    eval_result_spec(hw, threshold_spec(t, m))
}

fn insufficient_note_text(d: &ComponentDetail) -> (r: String)
    ensures
        r@ == insufficient_note(*d),
{
    let unit = d.name.unit();
    let mut r = String::from_str(d.name.label());
    r.append(": ");
    push_fixed_tenths(&mut r, d.actual);
    r.append(" ");
    r.append(unit);
    r.append(" < ");
    push_short_tenths(&mut r, d.min as u128);
    r.append(" ");
    r.append(unit);
    r.append(" mín");
    r
}

fn sufficient_note_text(d: &ComponentDetail) -> (r: String)
    ensures
        r@ == sufficient_note(*d),
{
    let unit = d.name.unit();
    let mut r = String::from_str(d.name.label());
    r.append(": ");
    push_fixed_tenths(&mut r, d.actual);
    r.append(" ");
    r.append(unit);
    r.append(" (ideal: ");
    push_short_tenths(&mut r, d.ideal as u128);
    r.append(" ");
    r.append(unit);
    r.append(")");
    r
}

fn contains_component(v: &Vec<Component>, c: Component) -> (r: bool)
    ensures
        r == v@.contains(c),
{
    let n = v.len();
    let mut i: usize = 0;
    while i < n
        invariant
            n == v.len(),
            i <= n,
            forall|j: int| 0 <= j < i ==> v@[j] != c,
        decreases n - i,
    {
        if v[i] == c {
            return true;
        }
        i = i + 1;
    }
    false
}

fn find_detail(details: &Vec<ComponentDetail>, c: Component) -> (r: Option<usize>)
    ensures
        r matches Some(k) ==> k < details.len() && details@[k as int].name == c,
        r is None ==> forall|j: int| 0 <= j < details.len() ==> details@[j].name != c,
{
    let n = details.len();
    let mut i: usize = 0;
    while i < n
        invariant
            n == details.len(),
            i <= n,
            forall|j: int| 0 <= j < i ==> details@[j].name != c,
        decreases n - i,
    {
        if details[i].name == c {
            return Some(i);
        }
        i = i + 1;
    }
    None
}

proof fn lemma_worst_push(hw: HardwareInfo, th: ThresholdView, cs: Seq<Component>, c: Component)
    ensures
        worst_among(hw, th, cs.push(c)) == (if is_critical(th, c) && status_rank(
            detail_spec(hw, th, c).status,
        ) < status_rank(worst_among(hw, th, cs)) {
            detail_spec(hw, th, c).status
        } else {
            worst_among(hw, th, cs)
        }),
{
    let ext = cs.push(c);
    assert forall|j: int| 0 <= j < cs.len() implies ext[j] == cs[j] by {}
    assert(ext[cs.len() as int] == c);
    if exists|j: int|
        0 <= j < cs.len() && is_critical(th, cs[j]) && #[trigger] detail_spec(hw, th, cs[j]).status
            == Status::Insuficiente {
        let j = choose|j: int|
            0 <= j < cs.len() && is_critical(th, cs[j]) && #[trigger] detail_spec(hw, th, cs[j]).status
                == Status::Insuficiente;
        assert(ext[j] == cs[j]);
    } else if exists|j: int|
        0 <= j < cs.len() && is_critical(th, cs[j]) && #[trigger] detail_spec(hw, th, cs[j]).status
            == Status::Suficiente {
        let j = choose|j: int|
            0 <= j < cs.len() && is_critical(th, cs[j]) && #[trigger] detail_spec(hw, th, cs[j]).status
                == Status::Suficiente;
        assert(ext[j] == cs[j]);
    }
}

/// Evaluates the hardware `hw` against the threshold `threshold`.
pub fn evaluate_threshold(hw: &HardwareInfo, threshold: &Threshold) -> (r: EvalResult)
    ensures
        r@ == eval_result_spec(*hw, threshold@),
{
    let ghost th = threshold@;
    let ghost order = component_order();
    let comps = Component::all();
    let mut details: Vec<ComponentDetail> = Vec::new();
    let mut worst = Status::Optimo;
    let mut notes: Vec<String> = Vec::new();
    let mut i: usize = 0;
    assert(order.take(0) =~= Seq::<Component>::empty());
    while i < 4
        invariant
            i <= 4,
            th == threshold@,
            comps@ == order,
            order == component_order(),
            details.len() == i,
            forall|j: int| 0 <= j < i ==> #[trigger] details@[j] == detail_spec(*hw, th, order[j]),
            worst == worst_among(*hw, th, order.take(i as int)),
            string_views(notes@) == insufficient_notes(*hw, th, order.take(i as int)),
        decreases 4 - i,
    {
        let comp = comps[i];
        let ct = threshold.component(comp);
        let actual = hw.actual(comp);
        let status = evaluate_component(actual, &ct);
        let detail = ComponentDetail {
            name: comp,
            status,
            actual,
            min: ct.min,
            ideal: ct.ideal,
        };
        assert(detail == detail_spec(*hw, th, comp));
        details.push(detail);
        assert(order.take(i + 1) =~= order.take(i as int).push(comp));
        assert(order.take(i + 1).drop_last() =~= order.take(i as int));
        proof {
            lemma_worst_push(*hw, th, order.take(i as int), comp);
        }
        if contains_component(&threshold.critical_components, comp) {
            if status.rank() < worst.rank() {
                worst = status;
            }
            if status == Status::Insuficiente {
                notes.push(insufficient_note_text(&detail));
            }
        }
        assert(string_views(notes@) =~= insufficient_notes(*hw, th, order.take(i + 1)));
        i = i + 1;
    }
    assert(order.take(4) =~= order);
    assert(details@ =~= details_spec(*hw, th));
    if worst == Status::Suficiente && notes.len() == 0 {
        let crit = &threshold.critical_components;
        let n = crit.len();
        let mut k: usize = 0;
        assert(crit@.take(0) =~= Seq::<Component>::empty());
        while k < n
            invariant
                n == crit.len(),
                k <= n,
                th == threshold@,
                crit@ == th.critical,
                order == component_order(),
                details@ == details_spec(*hw, th),
                string_views(notes@) == sufficient_notes(*hw, th, crit@.take(k as int)),
            decreases n - k,
        {
            let comp = crit[k];
            assert(crit@.take(k + 1).drop_last() =~= crit@.take(k as int));
            assert(crit@.take(k + 1).last() == comp);
            let ghost at = component_index(comp);
            assert(details@[at].name == comp);
            match find_detail(&details, comp) {
                Some(j) => {
                    assert(details@[j as int] == detail_spec(*hw, th, comp));
                    if details[j].status == Status::Suficiente {
                        notes.push(sufficient_note_text(&details[j]));
                    }
                },
                None => {
                    assert(false);
                },
            }
            assert(string_views(notes@) =~= sufficient_notes(*hw, th, crit@.take(k + 1)));
            k = k + 1;
        }
        assert(crit@.take(n as int) =~= crit@);
    }
    let bottleneck = if notes.len() == 0 {
        String::from_str("—")
    } else {
        join(&notes, " | ")
    };
    let r = EvalResult {
        task: threshold.task,
        magnitude: threshold.magnitude,
        description: threshold.description,
        overall_status: worst,
        bottleneck,
        details,
    };
    assert(r@ =~= eval_result_spec(*hw, th));
    r
}

/// Evaluates the hardware against every (workload, magnitude) pair: the
/// workloads in presentation order, and within each the magnitudes from the
/// most to the least demanding.
pub fn evaluate(hw: &HardwareInfo) -> (r: Vec<EvalResult>)
    ensures
        r.len() == 15,
        forall|t: Task, m: Magnitude| #[trigger] r@[pair_index(t, m)]@ == evaluation_spec(*hw, t, m),
{
    let table = thresholds();
    let mut results: Vec<EvalResult> = Vec::new();
    let mut ti: usize = 0;
    while ti < 5
        invariant
            ti <= 5,
            table.len() == 15,
            forall|t: Task, m: Magnitude| #[trigger] table@[pair_index(t, m)]@ == threshold_spec(t, m),
            forall|i: int|
                0 <= i < 15 ==> #[trigger] table@[i]@ == threshold_spec(
                    table@[i].task,
                    table@[i].magnitude,
                ),
            results.len() == 3 * ti,
            forall|t: Task, m: Magnitude|
                pair_index(t, m) < results.len() ==> #[trigger] results@[pair_index(t, m)]@
                    == evaluation_spec(*hw, t, m),
        decreases 5 - ti,
    {
        let task = Task::at(ti);
        let mut mi: usize = 0;
        while mi < 3
            invariant
                ti < 5,
                mi <= 3,
                task_index(task) == ti,
                table.len() == 15,
                forall|t: Task, m: Magnitude| #[trigger] table@[pair_index(t, m)]@ == threshold_spec(t, m),
                forall|i: int|
                    0 <= i < 15 ==> #[trigger] table@[i]@ == threshold_spec(
                        table@[i].task,
                        table@[i].magnitude,
                    ),
                results.len() == 3 * ti + mi,
                forall|t: Task, m: Magnitude|
                    pair_index(t, m) < results.len() ==> #[trigger] results@[pair_index(t, m)]@
                        == evaluation_spec(*hw, t, m),
            decreases 3 - mi,
        {
            let magnitude = Magnitude::at(mi);
            let found = find_threshold(&table, task.name(), magnitude);
            proof {
                lemma_pair_index(task, magnitude, task, magnitude);
                assert(table@[pair_index(task, magnitude)]@ == threshold_spec(task, magnitude));
                lemma_task_names(task);
            }
            let k = match found {
                Some(k) => k,
                None => {
                    assert(false);
                    mi = mi + 1;
                    continue;
                },
            };
            proof {
                let e = table@[k as int];
                assert(e@ == threshold_spec(e.task, e.magnitude));
                lemma_task_names(e.task);
            }
            let result = evaluate_threshold(hw, &table[k]);
            let ghost before = results@;
            results.push(result);
            assert forall|t: Task, m: Magnitude|
                pair_index(t, m) < results.len() implies #[trigger] results@[pair_index(t, m)]@
                    == evaluation_spec(*hw, t, m) by {
                lemma_pair_index(t, m, task, magnitude);
                if pair_index(t, m) < before.len() {
                    assert(results@[pair_index(t, m)] == before[pair_index(t, m)]);
                }
            }
            mi = mi + 1;
        }
        ti = ti + 1;
    }
    results
}

} // verus!
