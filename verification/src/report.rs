//! The text of the report: sizes, progress bars, framed boxes and the
//! hardware summary.
use vstd::prelude::*;
use crate::scanner::{CpuInfo, GpuInfo, RamInfo, StorageInfo};
use crate::text::{
    decimal, fixed_tenths, push_decimal, push_fixed_tenths, push_repeated,
    push_signed_fixed_tenths, repeat_str, repeated, signed_fixed_tenths, split_lines, string_views,
    text_lines,
};

verus! {

/// `num / den` rounded to the nearest integer, an exact half rounded to the
/// even neighbour.
pub open spec fn rounded_ratio_even(num: nat, den: nat) -> nat
    recommends
        den > 0,
{
    let q = num / den;
    let rem = num % den;
    if 2 * rem > den {
        (q + 1) as nat
    } else if 2 * rem < den {
        q as nat
    } else if q % 2 == 0 {
        q as nat
    } else {
        (q + 1) as nat
    }
}

/// A size in tenths of a gigabyte, written with one decimal in gigabytes, or
/// in terabytes (1 TB = 1000 GB, an exact half rounded to the even tenth)
/// from 1000 GB on.
pub open spec fn format_gb_spec(t: nat) -> Seq<char> {
    if t >= 10000 {
        fixed_tenths(rounded_ratio_even(t, 1000)) + " TB"@
    } else {
        fixed_tenths(t) + " GB"@
    }
}

/// Writes a size given in tenths of a gigabyte.
pub fn format_gb(t: u64) -> (r: String)
    ensures
        r@ == format_gb_spec(t as nat),
{
    let mut r = String::new();
    if t >= 10000 {
        let q: u64 = t / 1000;
        let rem: u64 = t % 1000;
        let tb: u128 = if rem > 500 || (rem == 500 && q % 2 == 1) {
            (q as u128) + 1
        } else {
            q as u128
        };
        push_fixed_tenths(&mut r, tb);
        r.append(" TB");
    } else {
        push_fixed_tenths(&mut r, t as u128);
        r.append(" GB");
    }
    r
}

/// How many of `width` cells a bar shows for `actual` out of `ideal`: the
/// ratio, capped at one, times the width, rounded down.
pub open spec fn filled_cells(actual: nat, ideal: nat, width: nat) -> nat
    recommends
        ideal > 0,
{
    if actual >= ideal {
        width
    } else {
        (actual * width / ideal) as nat
    }
}

/// The percentage shown by a bar: the ratio, capped at one, in percent,
/// rounded down.
pub open spec fn bar_percent(actual: nat, ideal: nat) -> nat
    recommends
        ideal > 0,
{
    if actual >= ideal {
        100
    } else {
        (actual * 100 / ideal) as nat
    }
}

/// A progress bar of `width` cells for `actual` out of `ideal`, followed by
/// the percentage; "N/A" when the ideal is zero.
pub open spec fn progress_bar_spec(actual: nat, ideal: nat, width: nat) -> Seq<char> {
    if ideal == 0 {
        "N/A"@
    } else {
        let filled = filled_cells(actual, ideal, width);
        repeated("█"@, filled) + repeated("░"@, (width - filled) as nat) + " "@ + decimal(
            bar_percent(actual, ideal),
        ) + "%"@
    }
}

/// Draws a progress bar of `width` cells for `actual` out of `ideal` (both in
/// the same unit).
pub fn progress_bar(actual: u128, ideal: u64, width: usize) -> (r: String)
    ensures
        r@ == progress_bar_spec(actual as nat, ideal as nat, width as nat),
{
    if ideal == 0 {
        return String::from_str("N/A");
    }
    let filled: usize;
    let pct: u128;
    if actual >= ideal as u128 {
        filled = width;
        pct = 100;
    } else {
        assert(actual * (width as u128) < 0x1_0000_0000_0000_0000 * 0x1_0000_0000_0000_0000)
            by (nonlinear_arith)
            requires
                actual < ideal,
                ideal < 0x1_0000_0000_0000_0000,
                width < 0x1_0000_0000_0000_0000,
        ;
        assert(actual * width / (ideal as int) <= width) by (nonlinear_arith)
            requires
                actual < ideal,
                ideal > 0,
        ;
        assert(actual * 100 / (ideal as int) <= 100) by (nonlinear_arith)
            requires
                actual < ideal,
                ideal > 0,
        ;
        filled = (actual * (width as u128) / (ideal as u128)) as usize;
        pct = actual * 100 / (ideal as u128);
    }
    let mut r = repeat_str("█", filled);
    let rest = repeat_str("░", width - filled);
    r.append(rest.as_str());
    r.append(" ");
    push_decimal(&mut r, pct);
    r.append("%");
    r
}

/// The length of the longest of `lines`, zero when there is none.
pub open spec fn longest(lines: Seq<Seq<char>>) -> nat
    decreases lines.len(),
{
    if lines.len() == 0 {
        0
    } else {
        let rest = longest(lines.drop_last());
        if lines.last().len() > rest {
            lines.last().len()
        } else {
            rest
        }
    }
}

/// `a - b`, or zero when `b` exceeds `a`.
pub open spec fn minus_or_zero(a: nat, b: nat) -> nat {
    if a >= b {
        (a - b) as nat
    } else {
        0
    }
}

/// The inner width of a box around `lines` titled `title`: its longest
/// line (40 when there is no line) or the title plus four, whichever is
/// larger, plus four.
pub open spec fn box_width(title: Seq<char>, lines: Seq<Seq<char>>) -> nat {
    let widest = if lines.len() == 0 {
        40
    } else {
        longest(lines)
    };
    let needed = if widest >= title.len() + 4 {
        widest
    } else {
        title.len() + 4
    };
    needed + 4
}

/// The top border of a box of inner width `w`, with the title in it.
pub open spec fn box_top(title: Seq<char>, w: nat) -> Seq<char> {
    "╭─ "@ + title + " "@ + repeated("─"@, minus_or_zero(w, title.len() + 4)) + "╮"@
}

/// The bottom border of a box of inner width `w`.
pub open spec fn box_bottom(w: nat) -> Seq<char> {
    "╰"@ + repeated("─"@, w) + "╯"@
}

/// One line of a box of inner width `w`, padded with spaces.
pub open spec fn box_line(line: Seq<char>, w: nat) -> Seq<char> {
    "│ "@ + line + repeated(" "@, minus_or_zero(w, line.len() + 1)) + " │"@
}

/// A framed box: its top border, its lines and its bottom border.
pub struct BoxFrame {
    pub top: String,
    pub body: Vec<String>,
    pub bottom: String,
}

fn longest_line(lines: &Vec<String>) -> (r: usize)
    ensures
        r == longest(string_views(lines@)),
{
    let n = lines.len();
    let mut best: usize = 0;
    let mut i: usize = 0;
    while i < n
        invariant
            n == lines.len(),
            i <= n,
            best == longest(string_views(lines@.take(i as int))),
        decreases n - i,
    {
        let len = lines[i].as_str().unicode_len();
        assert(string_views(lines@.take(i + 1)).drop_last() =~= string_views(lines@.take(i as int)));
        assert(string_views(lines@.take(i + 1)).last() == lines@[i as int]@);
        if len > best {
            best = len;
        }
        i = i + 1;
    }
    assert(lines@.take(n as int) =~= lines@);
    best
}

/// Frames `content` in a box titled `title`: the content is split into
/// lines, every line is padded to the width of the box, and the top border
/// carries the title.
pub fn box_frame(title: &str, content: &str) -> (r: BoxFrame)
    ensures
        ({
            let lines = text_lines(content@);
            let w = box_width(title@, lines);
            &&& r.top@ == box_top(title@, w)
            &&& r.bottom@ == box_bottom(w)
            &&& r.body.len() == lines.len()
            &&& forall|i: int| 0 <= i < lines.len() ==> #[trigger] r.body@[i]@ == box_line(lines[i], w)
        }),
{
    let lines = split_lines(content);
    let ghost views = text_lines(content@);
    let title_len = title.unicode_len() as u128;
    let widest: u128 = if lines.len() == 0 {
        40
    } else {
        longest_line(&lines) as u128
    };
    let needed = if widest >= title_len + 4 {
        widest
    } else {
        title_len + 4
    };
    let w = needed + 4;
    let mut top = String::from_str("╭─ ");
    top.append(title);
    top.append(" ");
    push_repeated(&mut top, "─", if w >= title_len + 4 {
        w - (title_len + 4)
    } else {
        0
    });
    top.append("╮");
    let mut bottom = String::from_str("╰");
    push_repeated(&mut bottom, "─", w);
    bottom.append("╯");
    let mut body: Vec<String> = Vec::new();
    let n = lines.len();
    let mut i: usize = 0;
    while i < n
        invariant
            n == lines.len(),
            string_views(lines@) == views,
            views == text_lines(content@),
            w == box_width(title@, views),
            i <= n,
            body.len() == i,
            forall|k: int| 0 <= k < i ==> #[trigger] body@[k]@ == box_line(views[k], w as nat),
        decreases n - i,
    {
        let line = lines[i].as_str();
        assert(line@ == views[i as int]);
        let len = line.unicode_len() as u128;
        let mut text = String::from_str("│ ");
        text.append(line);
        push_repeated(&mut text, " ", if w >= len + 1 {
            w - (len + 1)
        } else {
            0
        });
        text.append(" │");
        body.push(text);
        i = i + 1;
    }
    BoxFrame { top, body, bottom }
}

/// The processor panel of the hardware summary.
pub open spec fn cpu_summary_spec(cpu: CpuInfo) -> Seq<char> {
    "  Modelo:          "@ + cpu.brand@ + "\n  Núcleos Físicos: "@ + decimal(cpu.physical_cores as nat)
        + "\n  Núcleos Lógicos: "@ + decimal(cpu.logical_cores as nat) + "\n  Frecuencia:      "@
        + decimal(cpu.frequency_mhz as nat) + " MHz\n  Arquitectura:    "@ + cpu.arch@
}

/// The memory panel of the hardware summary.
pub open spec fn ram_summary_spec(ram: RamInfo) -> Seq<char> {
    "  Total:      "@ + format_gb_spec(ram.total_gb_tenths as nat) + "\n  Disponible: "@
        + format_gb_spec(ram.available_gb_tenths as nat) + "\n  En uso:     "@ + fixed_tenths(
        ram.percent_used_tenths as nat,
    ) + "%"@
}

/// The graphics card panel of the hardware summary.
pub open spec fn gpu_summary_spec(gpu: Option<GpuInfo>) -> Seq<char> {
    match gpu {
        Some(g) => "  Modelo:     "@ + g.name@ + "\n  VRAM Total: "@ + format_gb_spec(
            g.vram_total_gb_tenths as nat,
        ) + "\n  VRAM Libre: "@ + format_gb_spec(g.vram_free_gb_tenths as nat) + "\n  Driver:     "@
            + g.driver_version@,
        None => "  Estado: No se detectó GPU NVIDIA\n  VRAM:   0 GB"@,
    }
}

/// The storage panel of the hardware summary.
pub open spec fn storage_summary_spec(storage: StorageInfo) -> Seq<char> {
    "  Total:  "@ + format_gb_spec(storage.total_gb_tenths as nat) + "\n  Libre:  "@ + format_gb_spec(
        storage.free_gb_tenths as nat,
    ) + "\n  En uso: "@ + signed_fixed_tenths(storage.percent_used_tenths as int) + "%"@
}

/// The processor panel of the hardware summary.
pub fn cpu_summary(cpu: &CpuInfo) -> (r: String)
    ensures
        r@ == cpu_summary_spec(*cpu),
{
    let mut r = String::from_str("  Modelo:          ");
    r.append(cpu.brand.as_str());
    r.append("\n  Núcleos Físicos: ");
    push_decimal(&mut r, cpu.physical_cores as u128);
    r.append("\n  Núcleos Lógicos: ");
    push_decimal(&mut r, cpu.logical_cores as u128);
    r.append("\n  Frecuencia:      ");
    push_decimal(&mut r, cpu.frequency_mhz as u128);
    r.append(" MHz\n  Arquitectura:    ");
    r.append(cpu.arch.as_str());
    r
}

/// The memory panel of the hardware summary.
pub fn ram_summary(ram: &RamInfo) -> (r: String)
    ensures
        r@ == ram_summary_spec(*ram),
{
    let mut r = String::from_str("  Total:      ");
    r.append(format_gb(ram.total_gb_tenths).as_str());
    r.append("\n  Disponible: ");
    r.append(format_gb(ram.available_gb_tenths).as_str());
    r.append("\n  En uso:     ");
    push_fixed_tenths(&mut r, ram.percent_used_tenths);
    r.append("%");
    r
}

/// The graphics card panel of the hardware summary.
pub fn gpu_summary(gpu: &Option<GpuInfo>) -> (r: String)
    ensures
        r@ == gpu_summary_spec(*gpu),
{
    match gpu {
        Some(g) => {
            let mut r = String::from_str("  Modelo:     ");
            r.append(g.name.as_str());
            r.append("\n  VRAM Total: ");
            r.append(format_gb(g.vram_total_gb_tenths).as_str());
            r.append("\n  VRAM Libre: ");
            r.append(format_gb(g.vram_free_gb_tenths).as_str());
            r.append("\n  Driver:     ");
            r.append(g.driver_version.as_str());
            r
        },
        None => String::from_str("  Estado: No se detectó GPU NVIDIA\n  VRAM:   0 GB"),
    }
}

/// The storage panel of the hardware summary.
pub fn storage_summary(storage: &StorageInfo) -> (r: String)
    ensures
        r@ == storage_summary_spec(*storage),
{
    let mut r = String::from_str("  Total:  ");
    r.append(format_gb(storage.total_gb_tenths).as_str());
    r.append("\n  Libre:  ");
    r.append(format_gb(storage.free_gb_tenths).as_str());
    r.append("\n  En uso: ");
    push_signed_fixed_tenths(&mut r, storage.percent_used_tenths);
    r.append("%");
    r
}

} // verus!
