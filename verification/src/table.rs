//! The table of online players printed by the command-line client.

use vstd::prelude::*;
use vstd::string::{StrSliceExecFns, StringExecFns};
use vstd::utf8::encode_utf8;

use crate::display::{
    format_job_pair, format_optional_pair, format_zone, job_option_text, number_text, pair_text,
    zone_text,
};
use crate::names::{spec_zone_name, zone_name};
use crate::player::{OnlinePlayer, PlayerInfo};
use crate::search::player_infos;
use crate::text::{decimal, push_digits};

verus! {

/// The width of a text as the table measures it: its length in UTF-8 bytes, as `str::len`
/// gives it.
pub open spec fn byte_width(s: Seq<char>) -> nat {
    (encode_utf8(s).len() as usize) as nat
}

/// `n` copies of `c`.
pub open spec fn repeat(c: char, n: nat) -> Seq<char> {
    Seq::new(n, |i: int| c)
}

/// `s` followed by spaces up to `width` characters.
pub open spec fn pad_end(s: Seq<char>, width: nat) -> Seq<char> {
    if s.len() < width {
        s + repeat(' ', (width - s.len()) as nat)
    } else {
        s
    }
}

/// `s` preceded by spaces up to `width` characters.
pub open spec fn pad_start(s: Seq<char>, width: nat) -> Seq<char> {
    if s.len() < width {
        repeat(' ', (width - s.len()) as nat) + s
    } else {
        s
    }
}

/// The widest of `least` and the widths of `values`.
pub open spec fn widest(least: nat, values: Seq<Seq<char>>) -> nat
    decreases values.len(),
{
    if values.len() == 0 {
        least
    } else {
        let w = widest(least, values.drop_last());
        if byte_width(values.last()) > w {
            byte_width(values.last())
        } else {
            w
        }
    }
}

/// The texts shown for one player.
pub struct RowText {
    pub name: Seq<char>,
    pub zone: Seq<char>,
    pub job: Seq<char>,
    pub level: Seq<char>,
    pub id: Seq<char>,
}

/// The texts shown for `p`: its name, its zone (by name and number where the zone has a
/// name), its jobs, its levels, and its ID; `-` for what is missing.
pub open spec fn row_text(p: PlayerInfo) -> RowText {
    RowText {
        name: p.name,
        zone: match p.zone {
            Some(z) => zone_text(z, spec_zone_name(z)),
            None => "-"@,
        },
        job: pair_text(job_option_text(p.main_job), job_option_text(p.sub_job)),
        level: pair_text(number_text(p.main_level), number_text(p.sub_level)),
        id: match p.id {
            Some(i) => decimal(i as nat),
            None => "-"@,
        },
    }
}

/// One row of the table's texts.
pub struct PlayerRow {
    pub name: String,
    pub zone: String,
    pub job: String,
    pub level: String,
    pub id: String,
}

impl View for PlayerRow {
    type V = RowText;

    open spec fn view(&self) -> RowText {
        RowText {
            name: self.name@,
            zone: self.zone@,
            job: self.job@,
            level: self.level@,
            id: self.id@,
        }
    }
}

/// The row of texts shown for `player`.
pub fn player_row(player: &OnlinePlayer) -> (row: PlayerRow)
    ensures
        row@ == row_text(player@),
{
    let zone = match player.zone {
        Some(z) => format_zone(z, zone_name(z)),
        None => String::from_str("-"),
    };
    let id = match player.id {
        Some(i) => {
            let mut t = String::new();
            push_digits(&mut t, i as u64, 10);
            t
        },
        None => String::from_str("-"),
    };
    PlayerRow {
        name: player.name.clone(),
        zone,
        job: format_job_pair(player.main_job, player.sub_job),
        level: format_optional_pair(player.main_level, player.sub_level),
        id,
    }
}

/// The width of a column: the widest of its header and its values, in UTF-8 bytes.
pub fn column_width(header: &str, values: &Vec<String>) -> (width: usize)
    ensures
        width == widest(byte_width(header@), values@.map_values(|v: String| v@)),
{
    let mut width = header.len();
    let ghost views = values@.map_values(|v: String| v@);
    for i in 0..values.len()
        invariant
            views == values@.map_values(|v: String| v@),
            width == widest(byte_width(header@), views.take(i as int)),
    {
        let w = values[i].as_str().len();
        assert(views.take(i + 1).drop_last() =~= views.take(i as int));
        if w > width {
            width = w;
        }
    }
    assert(views.take(values@.len() as int) =~= views);
    width
}

/// `s` padded with spaces to `width` characters, at the end or at the start.
fn pad(s: &str, width: usize, at_end: bool) -> (padded: String)
    ensures
        padded@ == if at_end {
            pad_end(s@, width as nat)
        } else {
            pad_start(s@, width as nat)
        },
{
    let len = s.unicode_len();
    let mut padded = if at_end {
        String::from_str(s)
    } else {
        String::new()
    };
    if len < width {
        let mut i = len;
        while i < width
            invariant
                len <= i <= width,
                padded@ == if at_end {
                    s@ + repeat(' ', (i - len) as nat)
                } else {
                    repeat(' ', (i - len) as nat)
                },
            decreases width - i,
        {
            padded.push(' ');
            i += 1;
            proof {
                if at_end {
                    assert(padded@ =~= s@ + repeat(' ', (i - len) as nat));
                } else {
                    assert(padded@ =~= repeat(' ', (i - len) as nat));
                }
            }
        }
    }
    if !at_end {
        padded.append(s);
    }
    proof {
        if len >= width {
            if at_end {
            } else {
                assert(padded@ =~= s@);
            }
        }
    }
    padded
}

/// `n` dashes.
fn dash_line(n: usize) -> (line: String)
    ensures
        line@ == repeat('-', n as nat),
{
    let mut line = String::new();
    for i in 0..n
        invariant
            line@ == repeat('-', i as nat),
    {
        line.push('-');
        assert(line@ =~= repeat('-', (i + 1) as nat));
    }
    assert(line@ =~= repeat('-', n as nat));
    line
}

/// One line of the table: the five cells, each padded to its column's width, names, zones
/// and jobs on the left, levels and IDs on the right, two spaces apart.
pub open spec fn table_line(cells: RowText, widths: RowWidths) -> Seq<char> {
    pad_end(cells.name, widths.name) + "  "@ + pad_end(cells.zone, widths.zone) + "  "@ + pad_end(
        cells.job,
        widths.job,
    ) + "  "@ + pad_start(cells.level, widths.level) + "  "@ + pad_start(cells.id, widths.id)
}

/// The widths of the five columns.
pub struct RowWidths {
    pub name: nat,
    pub zone: nat,
    pub job: nat,
    pub level: nat,
    pub id: nat,
}

/// The texts of the column headers.
pub open spec fn header_text() -> RowText {
    RowText { name: "NAME"@, zone: "ZONE"@, job: "JOB"@, level: "LV"@, id: "ID"@ }
}

/// The width of each column: the widest of its header and its cells.
pub open spec fn table_widths(rows: Seq<RowText>) -> RowWidths {
    RowWidths {
        name: widest(byte_width("NAME"@), rows.map_values(|r: RowText| r.name)),
        zone: widest(byte_width("ZONE"@), rows.map_values(|r: RowText| r.zone)),
        job: widest(byte_width("JOB"@), rows.map_values(|r: RowText| r.job)),
        level: widest(byte_width("LV"@), rows.map_values(|r: RowText| r.level)),
        id: widest(byte_width("ID"@), rows.map_values(|r: RowText| r.id)),
    }
}

/// The rule under the headers: a run of dashes as wide as each column.
pub open spec fn rule_line(w: RowWidths) -> Seq<char> {
    repeat('-', w.name) + "  "@ + repeat('-', w.zone) + "  "@ + repeat('-', w.job) + "  "@
        + repeat('-', w.level) + "  "@ + repeat('-', w.id)
}

/// The lines of the table of `players`: the headers, the rule, and one line per player.
#[verifier::opaque]
pub open spec fn player_table(players: Seq<PlayerInfo>) -> Seq<Seq<char>> {
    let rows = players.map_values(|p: PlayerInfo| row_text(p));
    let w = table_widths(rows);
    seq![table_line(header_text(), w), rule_line(w)] + rows.map_values(
        |r: RowText| table_line(r, w),
    )
}

/// The lines of the table one by one.
proof fn lemma_player_table(players: Seq<PlayerInfo>)
    ensures
        ({
            let rows = players.map_values(|p: PlayerInfo| row_text(p));
            let w = table_widths(rows);
            let t = player_table(players);
            &&& t.len() == players.len() + 2
            &&& t[0] == table_line(header_text(), w)
            &&& t[1] == rule_line(w)
            &&& forall|i: int| 0 <= i < players.len() ==> #[trigger] t[i + 2] == table_line(rows[i], w)
        }),
{
    reveal(player_table);
}

/// Joins the five cells of a line.
fn render_line(name: &str, zone: &str, job: &str, level: &str, id: &str, widths: &[usize; 5]) -> (line: String)
    ensures
        line@ == table_line(
            RowText { name: name@, zone: zone@, job: job@, level: level@, id: id@ },
            RowWidths {
                name: widths@[0] as nat,
                zone: widths@[1] as nat,
                job: widths@[2] as nat,
                level: widths@[3] as nat,
                id: widths@[4] as nat,
            },
        ),
{
    let mut line = pad(name, widths[0], true);
    line.append("  ");
    line.append(pad(zone, widths[1], true).as_str());
    line.append("  ");
    line.append(pad(job, widths[2], true).as_str());
    line.append("  ");
    line.append(pad(level, widths[3], false).as_str());
    line.append("  ");
    line.append(pad(id, widths[4], false).as_str());
    line
}

/// The lines of the table of online players: headers, a rule of dashes, and one line per
/// player, each column as wide as its widest entry.
pub fn render_player_table(players: &Vec<OnlinePlayer>) -> (lines: Vec<String>)
    ensures
        lines@.map_values(|l: String| l@) == player_table(player_infos(players@)),
{
    let ghost infos = player_infos(players@);
    let ghost rows = infos.map_values(|p: PlayerInfo| row_text(p));
    let mut names: Vec<String> = Vec::new();
    let mut zones: Vec<String> = Vec::new();
    let mut jobs: Vec<String> = Vec::new();
    let mut levels: Vec<String> = Vec::new();
    let mut ids: Vec<String> = Vec::new();
    for i in 0..players.len()
        invariant
            infos == player_infos(players@),
            rows == infos.map_values(|p: PlayerInfo| row_text(p)),
            names@.len() == i,
            zones@.len() == i,
            jobs@.len() == i,
            levels@.len() == i,
            ids@.len() == i,
            forall|j: int| 0 <= j < i ==> #[trigger] names@[j]@ == rows[j].name,
            forall|j: int| 0 <= j < i ==> #[trigger] zones@[j]@ == rows[j].zone,
            forall|j: int| 0 <= j < i ==> #[trigger] jobs@[j]@ == rows[j].job,
            forall|j: int| 0 <= j < i ==> #[trigger] levels@[j]@ == rows[j].level,
            forall|j: int| 0 <= j < i ==> #[trigger] ids@[j]@ == rows[j].id,
    {
        let row = player_row(&players[i]);
        names.push(row.name);
        zones.push(row.zone);
        jobs.push(row.job);
        levels.push(row.level);
        ids.push(row.id);
    }
    assert(names@.map_values(|v: String| v@) =~= rows.map_values(|r: RowText| r.name));
    assert(zones@.map_values(|v: String| v@) =~= rows.map_values(|r: RowText| r.zone));
    assert(jobs@.map_values(|v: String| v@) =~= rows.map_values(|r: RowText| r.job));
    assert(levels@.map_values(|v: String| v@) =~= rows.map_values(|r: RowText| r.level));
    assert(ids@.map_values(|v: String| v@) =~= rows.map_values(|r: RowText| r.id));
    let widths = [
        column_width("NAME", &names),
        column_width("ZONE", &zones),
        column_width("JOB", &jobs),
        column_width("LV", &levels),
        column_width("ID", &ids),
    ];
    let ghost w = table_widths(rows);
    assert(widths@[0] == w.name && widths@[1] == w.zone && widths@[2] == w.job && widths@[3]
        == w.level && widths@[4] == w.id);
    let mut lines: Vec<String> = Vec::new();
    lines.push(render_line("NAME", "ZONE", "JOB", "LV", "ID", &widths));
    let mut rule = dash_line(widths[0]);
    rule.append("  ");
    rule.append(dash_line(widths[1]).as_str());
    rule.append("  ");
    rule.append(dash_line(widths[2]).as_str());
    rule.append("  ");
    rule.append(dash_line(widths[3]).as_str());
    rule.append("  ");
    rule.append(dash_line(widths[4]).as_str());
    lines.push(rule);
    let ghost table = player_table(infos);
    proof {
        lemma_player_table(infos);
    }
    for i in 0..players.len()
        invariant
            rows == infos.map_values(|p: PlayerInfo| row_text(p)),
            table == player_table(infos),
            w == table_widths(rows),
            widths@[0] == w.name && widths@[1] == w.zone && widths@[2] == w.job && widths@[3]
                == w.level && widths@[4] == w.id,
            names@.len() == players@.len(),
            zones@.len() == players@.len(),
            jobs@.len() == players@.len(),
            levels@.len() == players@.len(),
            ids@.len() == players@.len(),
            rows.len() == players@.len(),
            forall|j: int| 0 <= j < players@.len() ==> #[trigger] names@[j]@ == rows[j].name,
            forall|j: int| 0 <= j < players@.len() ==> #[trigger] zones@[j]@ == rows[j].zone,
            forall|j: int| 0 <= j < players@.len() ==> #[trigger] jobs@[j]@ == rows[j].job,
            forall|j: int| 0 <= j < players@.len() ==> #[trigger] levels@[j]@ == rows[j].level,
            forall|j: int| 0 <= j < players@.len() ==> #[trigger] ids@[j]@ == rows[j].id,
            table.len() == players@.len() + 2,
            forall|j: int| 0 <= j < players@.len() ==> #[trigger] table[j + 2] == table_line(rows[j], w),
            lines@.len() == i + 2,
            forall|j: int| 0 <= j < i + 2 ==> #[trigger] lines@[j]@ == table[j],
    {
        let line = render_line(
            names[i].as_str(),
            zones[i].as_str(),
            jobs[i].as_str(),
            levels[i].as_str(),
            ids[i].as_str(),
            &widths,
        );
        lines.push(line);
        assert(lines@[i + 2]@ == table[i + 2]);
    }
    assert(lines@.map_values(|l: String| l@) =~= table);
    lines
}

} // verus!
