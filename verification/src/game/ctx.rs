use vstd::prelude::*;
use crate::game::data::{Coord, DoorState, EntityId};
use crate::game::turn::{RuleName, TurnResolution};

verus! {

/// The kinds of entity that a level is built of.
#[derive(PartialEq, Eq, Structural, Clone, Copy, Debug)]
pub enum Prototype {
    Wall,
    Floor,
    Tree,
    OutsideFloor,
    Door(DoorState),
    Pc,
}

/// An entity to create from a prototype, at a cell.
#[derive(PartialEq, Eq, Structural, Clone, Copy, Debug)]
pub struct Spawn {
    pub prototype: Prototype,
    pub coord: Coord,
}

/// The entities that a level drawn as text is made of, in the order in which
/// they are created, and which of them is the player character.
#[derive(Clone, Debug)]
pub struct LevelPlan {
    pub spawns: Vec<Spawn>,
    /// The index in `spawns` of the player character, if the level has one.
    pub pc: Option<usize>,
    /// The first turn to schedule: the index in `spawns` of the actor that
    /// takes it, and its delay. The player character takes it at once.
    pub first_turn: Option<(usize, u64)>,
}

/// The characters that a level may be drawn with.
pub open spec fn is_level_char(c: char) -> bool {
    c == '#' || c == '&' || c == '.' || c == ',' || c == '+' || c == '@'
}

/// The entities that one character of a level stands for, in the order in
/// which they are created: a wall or a tree stands on a floor, the player on
/// an outside floor.
pub open spec fn char_prototypes(c: char) -> Seq<Prototype> {
    if c == '#' {
        seq![Prototype::Wall, Prototype::Floor]
    } else if c == '&' {
        seq![Prototype::Tree, Prototype::OutsideFloor]
    } else if c == '.' {
        seq![Prototype::Floor]
    } else if c == ',' {
        seq![Prototype::OutsideFloor]
    } else if c == '+' {
        seq![Prototype::Door(DoorState::Closed)]
    } else if c == '@' {
        seq![Prototype::Pc, Prototype::OutsideFloor]
    } else {
        Seq::empty()
    }
}

/// The spawns for the characters of a row, the row being line `y` of the level.
pub open spec fn row_spawns(row: Seq<char>, y: int) -> Seq<Spawn>
    decreases row.len(),
{
    if row.len() == 0 {
        Seq::empty()
    } else {
        let x = row.len() - 1;
        row_spawns(row.drop_last(), y) + char_prototypes(row.last()).map_values(
            |p: Prototype| Spawn { prototype: p, coord: Coord { x: x as isize, y: y as isize } },
        )
    }
}

/// The spawns for a level, row after row.
pub open spec fn level_spawns(rows: Seq<Seq<char>>) -> Seq<Spawn>
    decreases rows.len(),
{
    if rows.len() == 0 {
        Seq::empty()
    } else {
        level_spawns(rows.drop_last()) + row_spawns(rows.last(), rows.len() - 1)
    }
}

/// The index of the last player character among `spawns`.
pub open spec fn last_pc(spawns: Seq<Spawn>) -> Option<int>
    decreases spawns.len(),
{
    if spawns.len() == 0 {
        None
    } else if spawns.last().prototype == Prototype::Pc {
        Some(spawns.len() - 1)
    } else {
        last_pc(spawns.drop_last())
    }
}

/// The lines of a level, each as its characters.
pub open spec fn level_rows(lines: Seq<&str>) -> Seq<Seq<char>> {
    lines.map_values(|l: &str| l@)
}

/// A level drawn with `lines` uses only level characters, and its lines and
/// their lengths can be counted in an `isize`.
pub open spec fn level_drawable(lines: Seq<&str>) -> bool {
    &&& lines.len() <= isize::MAX
    &&& forall|i: int| 0 <= i < lines.len() ==> (#[trigger] lines[i])@.len() <= isize::MAX
    &&& forall|i: int, j: int|
        0 <= i < lines.len() && 0 <= j < lines[i]@.len() ==> is_level_char(
            #[trigger] lines[i]@[j],
        )
}

fn is_level_char_exec(c: char) -> (b: bool)
    ensures
        b == is_level_char(c),
{
    c == '#' || c == '&' || c == '.' || c == ',' || c == '+' || c == '@'
}

/// Whether a level drawn with `lines` can be built.
pub fn level_is_drawable(lines: &Vec<&str>) -> (b: bool)
    ensures
        b == level_drawable(lines@),
{
    if lines.len() > isize::MAX as usize {
        return false;
    }
    let n = lines.len();
    for i in 0..n
        invariant
            n == lines@.len(),
            n <= isize::MAX,
            forall|k: int| 0 <= k < i ==> (#[trigger] lines@[k])@.len() <= isize::MAX,
            forall|k: int, j: int|
                0 <= k < i && 0 <= j < lines@[k]@.len() ==> is_level_char(#[trigger] lines@[k]@[j]),
    {
        let line = lines[i];
        let m = line.unicode_len();
        if m > isize::MAX as usize {
            assert(lines@[i as int]@.len() > isize::MAX);
            return false;
        }
        for j in 0..m
            invariant
                m == line@.len(),
                0 <= i < n,
                n == lines@.len(),
                line == lines@[i as int],
                forall|jj: int| 0 <= jj < j ==> is_level_char(#[trigger] line@[jj]),
        {
            if !is_level_char_exec(line.get_char(j)) {
                assert(!is_level_char(lines@[i as int]@[j as int]));
                return false;
            }
        }
    }
    true
}

fn push_spawn(spawns: &mut Vec<Spawn>, pc: &mut Option<usize>, prototype: Prototype, coord: Coord)
    requires
        *old(pc) == match last_pc(old(spawns)@) {
            Some(k) => Some(k as usize),
            None => None,
        },
    ensures
        final(spawns)@ == old(spawns)@.push(Spawn { prototype, coord }),
        *final(pc) == match last_pc(final(spawns)@) {
            Some(k) => Some(k as usize),
            None => None,
        },
{
    if prototype == Prototype::Pc {
        *pc = Some(spawns.len());
    }
    spawns.push(Spawn { prototype, coord });
    assert(spawns@.drop_last() =~= old(spawns)@);
}

/// The entities of a level drawn with `lines`: each character, at column `x`
/// of line `y`, stands for the prototypes `char_prototypes` gives it, at
/// `(x, y)`; the player character is the last one drawn.
pub fn plan_level(lines: &Vec<&str>) -> (plan: LevelPlan)
    requires
        level_drawable(lines@),
    ensures
        plan.spawns@ == level_spawns(level_rows(lines@)),
        plan.pc == match last_pc(plan.spawns@) {
            Some(k) => Some(k as usize),
            None => None,
        },
        plan.first_turn == match plan.pc {
            Some(k) => Some((k, 0u64)),
            None => None,
        },
{
    let mut spawns: Vec<Spawn> = Vec::new();
    let mut pc: Option<usize> = None;
    let ghost rows = level_rows(lines@);
    let n = lines.len();
    for i in 0..n
        invariant
            n == lines@.len(),
            rows == level_rows(lines@),
            level_drawable(lines@),
            spawns@ == level_spawns(rows.subrange(0, i as int)),
            pc == match last_pc(spawns@) {
                Some(k) => Some(k as usize),
                None => None,
            },
    {
        let line = lines[i];
        let y = i as isize;
        let m = line.unicode_len();
        let ghost before = spawns@;
        assert(rows.subrange(0, i + 1).drop_last() =~= rows.subrange(0, i as int));
        assert(rows.subrange(0, i + 1).last() == line@);
        for j in 0..m
            invariant
                m == line@.len(),
                line == lines@[i as int],
                rows == level_rows(lines@),
                level_drawable(lines@),
                0 <= i < n,
                n == lines@.len(),
                y == i,
                spawns@ == before + row_spawns(line@.subrange(0, j as int), i as int),
                before == level_spawns(rows.subrange(0, i as int)),
                pc == match last_pc(spawns@) {
                    Some(k) => Some(k as usize),
                    None => None,
                },
        {
            let ch = line.get_char(j);
            let coord = Coord::new(j as isize, y);
            assert(line@.subrange(0, j + 1).drop_last() =~= line@.subrange(0, j as int));
            assert(line@.subrange(0, j + 1).last() == ch);
            let ghost added = char_prototypes(ch).map_values(
                |p: Prototype| Spawn { prototype: p, coord: Coord { x: j as isize, y: i as isize } },
            );
            if ch == '#' {
                push_spawn(&mut spawns, &mut pc, Prototype::Wall, coord);
                push_spawn(&mut spawns, &mut pc, Prototype::Floor, coord);
            } else if ch == '&' {
                push_spawn(&mut spawns, &mut pc, Prototype::Tree, coord);
                push_spawn(&mut spawns, &mut pc, Prototype::OutsideFloor, coord);
            } else if ch == '.' {
                push_spawn(&mut spawns, &mut pc, Prototype::Floor, coord);
            } else if ch == ',' {
                push_spawn(&mut spawns, &mut pc, Prototype::OutsideFloor, coord);
            } else if ch == '+' {
                push_spawn(&mut spawns, &mut pc, Prototype::Door(DoorState::Closed), coord);
            } else {
                push_spawn(&mut spawns, &mut pc, Prototype::Pc, coord);
                push_spawn(&mut spawns, &mut pc, Prototype::OutsideFloor, coord);
            }
            assert(spawns@ =~= before + row_spawns(line@.subrange(0, j + 1), i as int));
        }
        assert(line@.subrange(0, m as int) =~= line@);
    }
    assert(rows.subrange(0, n as int) =~= rows);
    let first_turn = match pc {
        Some(k) => Some((k, 0u64)),
        None => None,
    };
    LevelPlan { spawns, pc, first_turn }
}

/// The demo level, line by line.
pub open spec fn demo_level_lines() -> Seq<&'static str> {
    seq![
        "&&&&&&&&&&&&&&&&&&&&&&&&&&&&&&&&&&&&&&",
        "&,,,,,,,,,,,,,,,,,,,,,,,,,,,,,,,,,,,,&",
        "&,,############################,,,,,,&",
        "&,,#.........#................#,,&,,,&",
        "&,,#.........#................#,,,&,,&",
        "&,,#..........................#,,&,,,&",
        "&&,#.........#................#,,,,,,&",
        "&,&#.........##########+#######,,,,,,&",
        "&,,#.........#,,,,,,,,,,,,,,,,,,,,,,,&",
        "&&,#.........#,,,,,,,,,&,,,,,,,&,&,&,&",
        "&,,#.........#,,,,,&,,,,,,,,&,,,,,,,,&",
        "&,,#.........+,,,,,,&,,,,,,,,,,,,,,,,&",
        "&&,#.........#,,,,,&,,,,,,,,,&,,,,,,,&",
        "&,,#.........#,,,,,,,,,,&,,&,,,&,&,,,&",
        "&,&#.........#,,,,@,,,,&,,,,,,,,,,,,,&",
        "&,,###########,,,,,,,&,,,,,,,&,&,,,,,&",
        "&,,&,,,,,,,,,,,,,,,,,&,,,,&,,,,,,,,,,&",
        "&,&,,,,,,,,,,,,&,,,,,,,,,,,,,,,,,,,,,&",
        "&,,,&,,,,,,,,,,,,,,,,&,,,,,#########,&",
        "&,&,,,&,,,,,&,,&,,,,&,,,,,,#.......#,&",
        "&,,,,,&,,,,,,,,,&,,,,&,,,,,#.......#,&",
        "&,,,,,,,,,&,,,,,,,,,,,,,&,,........#,&",
        "&,&,&,,,,&&,,,&,&,,,,,,,&,,#.......#,&",
        "&,,,,,,,,,,,,,,,,,,,&,,,,,,#.......#,&",
        "&,,,&,,,,,,,&,,,,,,,,,,,,,,#########,&",
        "&&&&&&&&&&&&&&&&&&&&&&&&&&&&&&&&&&&&&&",
    ]
}

proof fn lemma_last_pc_concat(a: Seq<Spawn>, b: Seq<Spawn>)
    ensures
        (last_pc(a + b) is Some) <==> (last_pc(a) is Some || last_pc(b) is Some),
    decreases b.len(),
{
    if b.len() == 0 {
        assert(a + b =~= a);
    } else {
        assert((a + b).drop_last() =~= a + b.drop_last());
        assert((a + b).last() == b.last());
        lemma_last_pc_concat(a, b.drop_last());
    }
}

proof fn lemma_char_pc(c: char, x: int, y: int)
    ensures
        (last_pc(
            char_prototypes(c).map_values(
                |p: Prototype| Spawn { prototype: p, coord: Coord { x: x as isize, y: y as isize } },
            ),
        ) is Some) <==> c == '@',
{
    let added = char_prototypes(c).map_values(
        |p: Prototype| Spawn { prototype: p, coord: Coord { x: x as isize, y: y as isize } },
    );
    let protos = char_prototypes(c);
    assert(added.len() == protos.len());
    assert forall|k: int| 0 <= k < added.len() implies (#[trigger] added[k]).prototype == protos[k] by {
    }
    assert(protos.len() <= 2);
    if added.len() == 2 {
        assert(added.drop_last().len() == 1);
        assert(added.drop_last().last() == added[0]);
        assert(added.drop_last().drop_last().len() == 0);
        assert(last_pc(added.drop_last().drop_last()) is None);
    } else if added.len() == 1 {
        assert(added.drop_last().len() == 0);
        assert(last_pc(added.drop_last()) is None);
    }
}

proof fn lemma_row_pc(row: Seq<char>, y: int)
    ensures
        (last_pc(row_spawns(row, y)) is Some) <==> exists|j: int| 0 <= j < row.len() && row[j] == '@',
    decreases row.len(),
{
    if row.len() > 0 {
        let x = row.len() - 1;
        lemma_row_pc(row.drop_last(), y);
        lemma_char_pc(row.last(), x, y);
        lemma_last_pc_concat(
            row_spawns(row.drop_last(), y),
            char_prototypes(row.last()).map_values(
                |p: Prototype| Spawn { prototype: p, coord: Coord { x: x as isize, y: y as isize } },
            ),
        );
        if exists|j: int| 0 <= j < row.len() && row[j] == '@' {
            let j = choose|j: int| 0 <= j < row.len() && row[j] == '@';
            if j < row.len() - 1 {
                assert(row.drop_last()[j] == '@');
            }
        }
        if exists|j: int| 0 <= j < row.drop_last().len() && row.drop_last()[j] == '@' {
            let j = choose|j: int| 0 <= j < row.drop_last().len() && row.drop_last()[j] == '@';
            assert(row[j] == '@');
        }
    }
}

/// A level has a player character exactly where its drawing has an `@`.
pub proof fn law_pc_iff_drawn(rows: Seq<Seq<char>>)
    ensures
        (last_pc(level_spawns(rows)) is Some) <==> exists|i: int, j: int|
            0 <= i < rows.len() && 0 <= j < rows[i].len() && #[trigger] rows[i][j] == '@',
    decreases rows.len(),
{
    if rows.len() > 0 {
        let y = rows.len() - 1;
        law_pc_iff_drawn(rows.drop_last());
        lemma_row_pc(rows.last(), y);
        lemma_last_pc_concat(level_spawns(rows.drop_last()), row_spawns(rows.last(), y));
        if exists|i: int, j: int|
            0 <= i < rows.len() && 0 <= j < rows[i].len() && #[trigger] rows[i][j] == '@' {
            let (i, j) = choose|i: int, j: int|
                0 <= i < rows.len() && 0 <= j < rows[i].len() && #[trigger] rows[i][j] == '@';
            if i < rows.len() - 1 {
                assert(rows.drop_last()[i][j] == '@');
            } else {
                assert(rows.last()[j] == '@');
            }
        }
        if exists|i: int, j: int|
            0 <= i < rows.drop_last().len() && 0 <= j < rows.drop_last()[i].len()
                && #[trigger] rows.drop_last()[i][j] == '@' {
            let (i, j) = choose|i: int, j: int|
                0 <= i < rows.drop_last().len() && 0 <= j < rows.drop_last()[i].len()
                    && #[trigger] rows.drop_last()[i][j] == '@';
            assert(rows[i][j] == '@');
        }
        if exists|j: int| 0 <= j < rows.last().len() && rows.last()[j] == '@' {
            let j = choose|j: int| 0 <= j < rows.last().len() && rows.last()[j] == '@';
            assert(rows[rows.len() - 1][j] == '@');
        }
    }
}

proof fn lemma_row_spawn_drawn(row: Seq<char>, y: int, k: int)
    requires
        row.len() <= isize::MAX,
        0 <= y <= isize::MAX,
        0 <= k < row_spawns(row, y).len(),
    ensures
        row_spawns(row, y)[k].coord.y == y,
        0 <= row_spawns(row, y)[k].coord.x < row.len(),
        char_prototypes(row[row_spawns(row, y)[k].coord.x as int]).contains(
            row_spawns(row, y)[k].prototype,
        ),
    decreases row.len(),
{
    let x = row.len() - 1;
    let prev = row_spawns(row.drop_last(), y);
    let added = char_prototypes(row.last()).map_values(
        |p: Prototype| Spawn { prototype: p, coord: Coord { x: x as isize, y: y as isize } },
    );
    assert(row_spawns(row, y) == prev + added);
    if k < prev.len() {
        lemma_row_spawn_drawn(row.drop_last(), y, k);
        assert((prev + added)[k] == prev[k]);
        let xk = prev[k].coord.x as int;
        assert(row.drop_last()[xk] == row[xk]);
    } else {
        let m = k - prev.len();
        assert((prev + added)[k] == added[m]);
        assert(added[m].prototype == char_prototypes(row.last())[m]);
        assert(char_prototypes(row.last()).contains(added[m].prototype));
    }
}

/// Every entity of a level stands at a cell of its drawing, and is one that
/// the character drawn there stands for.
pub proof fn law_spawns_where_drawn(rows: Seq<Seq<char>>, k: int)
    requires
        rows.len() <= isize::MAX,
        forall|i: int| 0 <= i < rows.len() ==> (#[trigger] rows[i]).len() <= isize::MAX,
        0 <= k < level_spawns(rows).len(),
    ensures
        0 <= level_spawns(rows)[k].coord.y < rows.len(),
        0 <= level_spawns(rows)[k].coord.x < rows[level_spawns(rows)[k].coord.y as int].len(),
        char_prototypes(
            rows[level_spawns(rows)[k].coord.y as int][level_spawns(rows)[k].coord.x as int],
        ).contains(level_spawns(rows)[k].prototype),
    decreases rows.len(),
{
    let y = rows.len() - 1;
    let prev = level_spawns(rows.drop_last());
    let row = row_spawns(rows.last(), y);
    assert(level_spawns(rows) == prev + row);
    if k < prev.len() {
        assert forall|i: int| 0 <= i < rows.drop_last().len() implies (
        #[trigger] rows.drop_last()[i]).len() <= isize::MAX by {
            assert(rows.drop_last()[i] == rows[i]);
        }
        law_spawns_where_drawn(rows.drop_last(), k);
        assert((prev + row)[k] == prev[k]);
        let yk = prev[k].coord.y as int;
        assert(rows.drop_last()[yk] == rows[yk]);
    } else {
        let m = k - prev.len();
        assert(rows[y] == rows.last());
        lemma_row_spawn_drawn(rows.last(), y, m);
        assert((prev + row)[k] == row[m]);
    }
}

/// What each character of a level stands for: the player character only for
/// `@`, a wall only for `#`, a tree only for `&`, a closed door only for `+`;
/// everything but a door stands on a floor (an inside floor under `#` and
/// `.`, an outside one under `&`, `,` and `@`), which is created last; a
/// character that is not a level character stands for nothing.
pub proof fn law_char_prototypes(c: char)
    ensures
        is_level_char(c) <==> char_prototypes(c).len() > 0,
        char_prototypes(c).contains(Prototype::Pc) <==> c == '@',
        char_prototypes(c).contains(Prototype::Wall) <==> c == '#',
        char_prototypes(c).contains(Prototype::Tree) <==> c == '&',
        char_prototypes(c).contains(Prototype::Door(DoorState::Closed)) <==> c == '+',
        (c == '#' || c == '.') ==> char_prototypes(c).last() == Prototype::Floor,
        (c == '&' || c == ',' || c == '@') ==> char_prototypes(c).last() == Prototype::OutsideFloor,
        c == '+' ==> char_prototypes(c) == seq![Prototype::Door(DoorState::Closed)],
{
    let p = char_prototypes(c);
    assert(p.len() <= 2);
    if p.len() == 2 {
        assert(p.contains(p[0]) && p.contains(p[1]));
    } else if p.len() == 1 {
        assert(p.contains(p[0]));
    }
    assert forall|q: Prototype| p.contains(q) implies (p.len() >= 1 && q == p[0]) || (p.len() == 2
        && q == p[1]) by {
        let k = choose|k: int| 0 <= k < p.len() && p[k] == q;
    }
}

proof fn lemma_row_spawns_complete(row: Seq<char>, y: int, j: int, k: int)
    requires
        row.len() <= isize::MAX,
        0 <= y <= isize::MAX,
        0 <= j < row.len(),
        0 <= k < char_prototypes(row[j]).len(),
    ensures
        exists|m: int|
            0 <= m < row_spawns(row, y).len() && #[trigger] row_spawns(row, y)[m] == (Spawn {
                prototype: char_prototypes(row[j])[k],
                coord: Coord { x: j as isize, y: y as isize },
            }),
    decreases row.len(),
{
    let x = row.len() - 1;
    let prev = row_spawns(row.drop_last(), y);
    let added = char_prototypes(row.last()).map_values(
        |p: Prototype| Spawn { prototype: p, coord: Coord { x: x as isize, y: y as isize } },
    );
    assert(row_spawns(row, y) == prev + added);
    let target = Spawn {
        prototype: char_prototypes(row[j])[k],
        coord: Coord { x: j as isize, y: y as isize },
    };
    if j == x {
        assert((prev + added)[prev.len() + k] == added[k]);
        assert(added[k] == target);
        assert(row_spawns(row, y)[prev.len() + k] == target);
    } else {
        assert(row.drop_last()[j] == row[j]);
        lemma_row_spawns_complete(row.drop_last(), y, j, k);
        let m = choose|m: int|
            0 <= m < prev.len() && #[trigger] row_spawns(row.drop_last(), y)[m] == target;
        assert((prev + added)[m] == prev[m]);
        assert(row_spawns(row, y)[m] == target);
    }
}

/// Everything that each character of a level stands for is built, at the
/// character's cell.
pub proof fn law_drawn_cells_built(rows: Seq<Seq<char>>, i: int, j: int, k: int)
    requires
        rows.len() <= isize::MAX,
        forall|r: int| 0 <= r < rows.len() ==> (#[trigger] rows[r]).len() <= isize::MAX,
        0 <= i < rows.len(),
        0 <= j < rows[i].len(),
        0 <= k < char_prototypes(rows[i][j]).len(),
    ensures
        exists|m: int|
            0 <= m < level_spawns(rows).len() && #[trigger] level_spawns(rows)[m] == (Spawn {
                prototype: char_prototypes(rows[i][j])[k],
                coord: Coord { x: j as isize, y: i as isize },
            }),
    decreases rows.len(),
{
    let y = rows.len() - 1;
    let prev = level_spawns(rows.drop_last());
    let row = row_spawns(rows.last(), y);
    assert(level_spawns(rows) == prev + row);
    let target = Spawn {
        prototype: char_prototypes(rows[i][j])[k],
        coord: Coord { x: j as isize, y: i as isize },
    };
    if i == y {
        lemma_row_spawns_complete(rows.last(), y, j, k);
        let m = choose|m: int|
            0 <= m < row.len() && #[trigger] row_spawns(rows.last(), y)[m] == target;
        assert((prev + row)[prev.len() + m] == row[m]);
        assert(level_spawns(rows)[prev.len() + m] == target);
    } else {
        assert forall|r: int| 0 <= r < rows.drop_last().len() implies (
        #[trigger] rows.drop_last()[r]).len() <= isize::MAX by {
            assert(rows.drop_last()[r] == rows[r]);
        }
        assert(rows.drop_last()[i] == rows[i]);
        law_drawn_cells_built(rows.drop_last(), i, j, k);
        let m = choose|m: int|
            0 <= m < prev.len() && #[trigger] level_spawns(rows.drop_last())[m] == target;
        assert((prev + row)[m] == prev[m]);
        assert(level_spawns(rows)[m] == target);
    }
}

/// The player character of a plan is its last player-character spawn.
pub proof fn law_last_pc(spawns: Seq<Spawn>, k: int)
    requires
        last_pc(spawns) == Some(k),
    ensures
        0 <= k < spawns.len(),
        spawns[k].prototype == Prototype::Pc,
        forall|j: int| k < j < spawns.len() ==> (#[trigger] spawns[j]).prototype != Prototype::Pc,
    decreases spawns.len(),
{
    if spawns.last().prototype != Prototype::Pc {
        law_last_pc(spawns.drop_last(), k);
        assert forall|j: int| k < j < spawns.len() implies (#[trigger] spawns[j]).prototype
            != Prototype::Pc by {
            if j < spawns.len() - 1 {
                assert(spawns.drop_last()[j] == spawns[j]);
            }
        }
    }
}

/// The demo level uses only level characters.
pub proof fn lemma_demo_level_drawable()
    ensures
        level_drawable(demo_level_lines()),
{
        reveal_strlit("&&&&&&&&&&&&&&&&&&&&&&&&&&&&&&&&&&&&&&");
        reveal_strlit("&,,,,,,,,,,,,,,,,,,,,,,,,,,,,,,,,,,,,&");
        reveal_strlit("&,,############################,,,,,,&");
        reveal_strlit("&,,#.........#................#,,&,,,&");
        reveal_strlit("&,,#.........#................#,,,&,,&");
        reveal_strlit("&,,#..........................#,,&,,,&");
        reveal_strlit("&&,#.........#................#,,,,,,&");
        reveal_strlit("&,&#.........##########+#######,,,,,,&");
        reveal_strlit("&,,#.........#,,,,,,,,,,,,,,,,,,,,,,,&");
        reveal_strlit("&&,#.........#,,,,,,,,,&,,,,,,,&,&,&,&");
        reveal_strlit("&,,#.........#,,,,,&,,,,,,,,&,,,,,,,,&");
        reveal_strlit("&,,#.........+,,,,,,&,,,,,,,,,,,,,,,,&");
        reveal_strlit("&&,#.........#,,,,,&,,,,,,,,,&,,,,,,,&");
        reveal_strlit("&,,#.........#,,,,,,,,,,&,,&,,,&,&,,,&");
        reveal_strlit("&,&#.........#,,,,@,,,,&,,,,,,,,,,,,,&");
        reveal_strlit("&,,###########,,,,,,,&,,,,,,,&,&,,,,,&");
        reveal_strlit("&,,&,,,,,,,,,,,,,,,,,&,,,,&,,,,,,,,,,&");
        reveal_strlit("&,&,,,,,,,,,,,,&,,,,,,,,,,,,,,,,,,,,,&");
        reveal_strlit("&,,,&,,,,,,,,,,,,,,,,&,,,,,#########,&");
        reveal_strlit("&,&,,,&,,,,,&,,&,,,,&,,,,,,#.......#,&");
        reveal_strlit("&,,,,,&,,,,,,,,,&,,,,&,,,,,#.......#,&");
        reveal_strlit("&,,,,,,,,,&,,,,,,,,,,,,,&,,........#,&");
        reveal_strlit("&,&,&,,,,&&,,,&,&,,,,,,,&,,#.......#,&");
        reveal_strlit("&,,,,,,,,,,,,,,,,,,,&,,,,,,#.......#,&");
        reveal_strlit("&,,,&,,,,,,,&,,,,,,,,,,,,,,#########,&");
        reveal_strlit("&&&&&&&&&&&&&&&&&&&&&&&&&&&&&&&&&&&&&&");
    let lines = demo_level_lines();
    assert forall|i: int, j: int|
        0 <= i < lines.len() && 0 <= j < lines[i]@.len() implies is_level_char(#[trigger] lines[i]@[j]) by {
    }
}

/// The demo level has a player character, who takes the first turn at once.
pub proof fn law_demo_has_player()
    ensures
        last_pc(level_spawns(level_rows(demo_level_lines()))) is Some,
{
    reveal_strlit("&,&#.........#,,,,@,,,,&,,,,,,,,,,,,,&");
    let rows = level_rows(demo_level_lines());
    assert(rows[14][18] == '@');
    law_pc_iff_drawn(rows);
}

/// The demo level, line by line.
pub fn demo_level_str() -> (lines: Vec<&'static str>)
    ensures
        lines@ == demo_level_lines(),
{
    let lines = vec![
        "&&&&&&&&&&&&&&&&&&&&&&&&&&&&&&&&&&&&&&",
        "&,,,,,,,,,,,,,,,,,,,,,,,,,,,,,,,,,,,,&",
        "&,,############################,,,,,,&",
        "&,,#.........#................#,,&,,,&",
        "&,,#.........#................#,,,&,,&",
        "&,,#..........................#,,&,,,&",
        "&&,#.........#................#,,,,,,&",
        "&,&#.........##########+#######,,,,,,&",
        "&,,#.........#,,,,,,,,,,,,,,,,,,,,,,,&",
        "&&,#.........#,,,,,,,,,&,,,,,,,&,&,&,&",
        "&,,#.........#,,,,,&,,,,,,,,&,,,,,,,,&",
        "&,,#.........+,,,,,,&,,,,,,,,,,,,,,,,&",
        "&&,#.........#,,,,,&,,,,,,,,,&,,,,,,,&",
        "&,,#.........#,,,,,,,,,,&,,&,,,&,&,,,&",
        "&,&#.........#,,,,@,,,,&,,,,,,,,,,,,,&",
        "&,,###########,,,,,,,&,,,,,,,&,&,,,,,&",
        "&,,&,,,,,,,,,,,,,,,,,&,,,,&,,,,,,,,,,&",
        "&,&,,,,,,,,,,,,&,,,,,,,,,,,,,,,,,,,,,&",
        "&,,,&,,,,,,,,,,,,,,,,&,,,,,#########,&",
        "&,&,,,&,,,,,&,,&,,,,&,,,,,,#.......#,&",
        "&,,,,,&,,,,,,,,,&,,,,&,,,,,#.......#,&",
        "&,,,,,,,,,&,,,,,,,,,,,,,&,,........#,&",
        "&,&,&,,,,&&,,,&,&,,,,,,,&,,#.......#,&",
        "&,,,,,,,,,,,,,,,,,,,&,,,,,,#.......#,&",
        "&,,,&,,,,,,,&,,,,,,,,,,,,,,#########,&",
        "&&&&&&&&&&&&&&&&&&&&&&&&&&&&&&&&&&&&&&",
    ];
    assert(lines@ =~= demo_level_lines());
    lines
}

/// The rules that a game starts with, in the order they are asked.
pub open spec fn spec_startup_rules() -> Seq<RuleName> {
    seq![RuleName::OpenDoor, RuleName::Collision, RuleName::CloseDoor]
}

/// A game starts with three rules: a door opens before collisions are
/// checked, and closes after.
pub proof fn law_startup_rules()
    ensures
        spec_startup_rules().len() == 3,
        spec_startup_rules()[0] == RuleName::OpenDoor,
        spec_startup_rules()[1] == RuleName::Collision,
        spec_startup_rules()[2] == RuleName::CloseDoor,
{
}

/// The rules that a game starts with, in the order they are asked.
pub fn startup_rules() -> (rules: Vec<RuleName>)
    ensures
        rules@ == spec_startup_rules(),
        rules@ == seq![RuleName::OpenDoor, RuleName::Collision, RuleName::CloseDoor],
{
    let rules = vec![RuleName::OpenDoor, RuleName::Collision, RuleName::CloseDoor];
    assert(rules@ =~= seq![RuleName::OpenDoor, RuleName::Collision, RuleName::CloseDoor]);
    rules
}

/// What goes wrong in the game loop.
#[derive(PartialEq, Eq, Structural, Clone, Copy, Debug)]
pub enum GameError {
    /// No actor has a turn.
    ScheduleEmpty,
}

/// The start of a round of the game loop: the turn count goes up, and the
/// actor whose turn is next takes it; with no actor the loop ends in an error.
pub fn start_turn(turn_id: &mut u64, next: Option<EntityId>) -> (r: Result<EntityId, GameError>)
    requires
        *old(turn_id) < u64::MAX,
    ensures
        *final(turn_id) == *old(turn_id) + 1,
        r == match next {
            Some(id) => Ok::<EntityId, GameError>(id),
            None => Err(GameError::ScheduleEmpty),
        },
{
    *turn_id = *turn_id + 1;
    match next {
        Some(id) => Ok(id),
        None => Err(GameError::ScheduleEmpty),
    }
}

/// What the game loop does once a turn is resolved.
#[derive(PartialEq, Eq, Structural, Clone, Copy, Debug)]
pub enum LoopControl {
    /// Schedule the actor's next turn `delay` from now, and go on.
    Reschedule(EntityId, u64),
    /// Leave the loop with this resolution.
    Finish(TurnResolution),
}

pub open spec fn spec_after_turn(resolution: TurnResolution) -> LoopControl {
    match resolution {
        TurnResolution::Schedule(id, delay) => LoopControl::Reschedule(id, delay),
        other => LoopControl::Finish(other),
    }
}

/// The game loop goes on exactly while turns end in a reschedule, and then
/// puts the same actor back after the same delay.
pub proof fn law_after_turn(id: EntityId, delay: u64, resolution: TurnResolution)
    ensures
        spec_after_turn(TurnResolution::Schedule(id, delay)) == LoopControl::Reschedule(id, delay),
        !(resolution is Schedule) ==> spec_after_turn(resolution) == LoopControl::Finish(resolution),
{
}

/// An actor that is rescheduled goes back in the schedule; any other end of a
/// turn ends the loop.
pub fn after_turn(resolution: TurnResolution) -> (c: LoopControl)
    ensures
        c == spec_after_turn(resolution),
        c == match resolution {
            TurnResolution::Schedule(id, delay) => LoopControl::Reschedule(id, delay),
            other => LoopControl::Finish(other),
        },
{
    match resolution {
        TurnResolution::Schedule(id, delay) => LoopControl::Reschedule(id, delay),
        other => LoopControl::Finish(other),
    }
}

} // verus!
