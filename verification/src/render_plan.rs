//! The layout planner: a pure, total function from mode, zoom state
//! and terminal area to an ordered list of component placements.
//! Components absent from the plan are not drawn that frame.

use vstd::prelude::*;

use crate::action::Mode;

verus! {

/// A rectangle of terminal cells.
#[derive(Clone, Copy, Debug, PartialEq, Eq, Structural)]
pub struct Rect {
    pub x: u16,
    pub y: u16,
    pub width: u16,
    pub height: u16,
}

/// A screen rectangle whose far edges still fit in the coordinate
/// type.
pub open spec fn rect_wf(r: Rect) -> bool {
    r.x + r.width <= u16::MAX && r.y + r.height <= u16::MAX
}

/// Whether `r` lies entirely inside `outer`.
pub open spec fn rect_in(r: Rect, outer: Rect) -> bool {
    &&& outer.x <= r.x
    &&& r.x + r.width <= outer.x + outer.width
    &&& outer.y <= r.y
    &&& r.y + r.height <= outer.y + outer.height
}

/// Whether two rectangles share no cell: they are separated on some
/// axis, or one of them is empty.
pub open spec fn rects_disjoint(a: Rect, b: Rect) -> bool {
    ||| a.x + a.width <= b.x
    ||| b.x + b.width <= a.x
    ||| a.y + a.height <= b.y
    ||| b.y + b.height <= a.y
    ||| a.width == 0
    ||| a.height == 0
    ||| b.width == 0
    ||| b.height == 0
}

/// The stable identity a component is registered and drawn under;
/// ordering of identities carries no meaning.
#[derive(Clone, Copy, Debug, Hash, PartialEq, Eq, Structural)]
pub enum ComponentId {
    Title,
    ConnectionMenu,
    TextEditor,
    ResultsTable,
    StructureTable,
    TableList,
    SchemaList,
    Messages,
    CellPopup,
    DetailPopup,
}

/// The component that holds input focus in a mode. Every component
/// derives its focus from this single function, so the registry's
/// dispatch and the components' own focus flags cannot drift apart.
pub open spec fn spec_focused_component(m: Mode) -> ComponentId {
    match m {
        Mode::ConnectionMenu => ComponentId::ConnectionMenu,
        Mode::EditQuery => ComponentId::TextEditor,
        Mode::ExploreResults => ComponentId::ResultsTable,
        Mode::ExploreTables => ComponentId::TableList,
        Mode::ExploreStructure => ComponentId::StructureTable,
        Mode::ExploreSchemas => ComponentId::SchemaList,
    }
}

/// The component that holds input focus in a mode.
pub fn focused_component(m: Mode) -> (r: ComponentId)
    ensures
        r == spec_focused_component(m),
{
    match m {
        Mode::ConnectionMenu => ComponentId::ConnectionMenu,
        Mode::EditQuery => ComponentId::TextEditor,
        Mode::ExploreResults => ComponentId::ResultsTable,
        Mode::ExploreTables => ComponentId::TableList,
        Mode::ExploreStructure => ComponentId::StructureTable,
        Mode::ExploreSchemas => ComponentId::SchemaList,
    }
}

/// `p` per cent of a length, rounded down and clamped to the length.
pub open spec fn spec_frac(len: u16, p: u16) -> u16 {
    let raw = (len as int) * (p as int) / 100;
    if raw <= len as int {
        raw as u16
    } else {
        len
    }
}

fn frac(len: u16, p: u16) -> (r: u16)
    requires
        p <= 100,
    ensures
        r == spec_frac(len, p),
        r <= len,
{
    proof {
        assert((len as int) * (p as int) <= 65535 * 100) by (nonlinear_arith)
            requires
                len <= 65535,
                p <= 100,
        ;
    }
    let raw: u64 = (len as u64) * (p as u64) / 100;
    if raw <= len as u64 {
        raw as u16
    } else {
        len
    }
}

/// Three vertical bands: the first two take the given percentages of
/// the height (clamped so they fit), the third takes the rest.
pub open spec fn spec_vsplit3(area: Rect, p1: u16, p2: u16) -> (Rect, Rect, Rect) {
    let h1 = spec_frac(area.height, p1);
    let h2 = spec_frac((area.height - h1) as u16, p2);
    let h3 = (area.height - h1 - h2) as u16;
    (
        Rect { x: area.x, y: area.y, width: area.width, height: h1 },
        Rect { x: area.x, y: (area.y + h1) as u16, width: area.width, height: h2 },
        Rect { x: area.x, y: (area.y + h1 + h2) as u16, width: area.width, height: h3 },
    )
}

fn vsplit3(area: Rect, p1: u16, p2: u16) -> (r: (Rect, Rect, Rect))
    requires
        rect_wf(area),
        p1 <= 100,
        p2 <= 100,
    ensures
        r == spec_vsplit3(area, p1, p2),
{
    let h1 = frac(area.height, p1);
    let h2 = frac(area.height - h1, p2);
    let h3 = area.height - h1 - h2;
    (
        Rect { x: area.x, y: area.y, width: area.width, height: h1 },
        Rect { x: area.x, y: area.y + h1, width: area.width, height: h2 },
        Rect { x: area.x, y: area.y + h1 + h2, width: area.width, height: h3 },
    )
}

/// Two horizontal bands: the first takes the given percentage of the
/// width (clamped), the second takes the rest.
pub open spec fn spec_hsplit2(area: Rect, p1: u16) -> (Rect, Rect) {
    let w1 = spec_frac(area.width, p1);
    let w2 = (area.width - w1) as u16;
    (
        Rect { x: area.x, y: area.y, width: w1, height: area.height },
        Rect { x: (area.x + w1) as u16, y: area.y, width: w2, height: area.height },
    )
}

fn hsplit2(area: Rect, p1: u16) -> (r: (Rect, Rect))
    requires
        rect_wf(area),
        p1 <= 100,
    ensures
        r == spec_hsplit2(area, p1),
{
    let w1 = frac(area.width, p1);
    let w2 = area.width - w1;
    (
        Rect { x: area.x, y: area.y, width: w1, height: area.height },
        Rect { x: area.x + w1, y: area.y, width: w2, height: area.height },
    )
}

/// The sidebar list for a mode: schemas under `ExploreSchemas`,
/// tables everywhere else.
pub open spec fn spec_sidebar_component(m: Mode) -> ComponentId {
    if m == Mode::ExploreSchemas {
        ComponentId::SchemaList
    } else {
        ComponentId::TableList
    }
}

/// The wide result band for a mode: the structure view under
/// `ExploreStructure`, the results view everywhere else.
pub open spec fn spec_result_component(m: Mode) -> ComponentId {
    if m == Mode::ExploreStructure {
        ComponentId::StructureTable
    } else {
        ComponentId::ResultsTable
    }
}

/// The plan for one frame. The connection menu keeps its fixed
/// three-band layout and ignores zoom; any other mode, zoomed, gives
/// the whole area to the one component owning that mode; otherwise a
/// narrow sidebar stands beside the editor, the active result view
/// and the message band.
pub open spec fn spec_plan(m: Mode, zoomed: bool, root: Rect) -> Seq<(ComponentId, Rect)> {
    if m == Mode::ConnectionMenu {
        let (top, mid, bottom) = spec_vsplit3(root, 20, 75);
        seq![
            (ComponentId::Title, top),
            (ComponentId::ConnectionMenu, mid),
            (ComponentId::Messages, bottom),
        ]
    } else if zoomed {
        seq![(spec_focused_component(m), root)]
    } else {
        let (sidebar, main) = spec_hsplit2(root, 20);
        let (editor, result, messages) = spec_vsplit3(main, 45, 80);
        seq![
            (spec_sidebar_component(m), sidebar),
            (ComponentId::TextEditor, editor),
            (spec_result_component(m), result),
            (ComponentId::Messages, messages),
        ]
    }
}

/// Every plan is non-empty, stays inside the area it was asked to
/// fill, and places no two components on a common cell.
pub proof fn lemma_plan_wf(m: Mode, zoomed: bool, root: Rect)
    requires
        rect_wf(root),
    ensures
        spec_plan(m, zoomed, root).len() > 0,
        forall|i: int|
            0 <= i < spec_plan(m, zoomed, root).len() ==> rect_in(
                #[trigger] spec_plan(m, zoomed, root)[i].1,
                root,
            ),
        forall|i: int, j: int|
            0 <= i < j < spec_plan(m, zoomed, root).len() ==> rects_disjoint(
                #[trigger] spec_plan(m, zoomed, root)[i].1,
                #[trigger] spec_plan(m, zoomed, root)[j].1,
            ),
{
    let plan = spec_plan(m, zoomed, root);
    if m == Mode::ConnectionMenu {
        assert(rect_in(plan[0].1, root));
        assert(rect_in(plan[1].1, root));
        assert(rect_in(plan[2].1, root));
    } else if zoomed {
        assert(rect_in(plan[0].1, root));
    } else {
        assert(rect_in(plan[0].1, root));
        assert(rect_in(plan[1].1, root));
        assert(rect_in(plan[2].1, root));
        assert(rect_in(plan[3].1, root));
        assert(rects_disjoint(plan[0].1, plan[1].1));
        assert(rects_disjoint(plan[0].1, plan[2].1));
        assert(rects_disjoint(plan[0].1, plan[3].1));
        assert(rects_disjoint(plan[1].1, plan[2].1));
        assert(rects_disjoint(plan[1].1, plan[3].1));
        assert(rects_disjoint(plan[2].1, plan[3].1));
    }
}

/// Plans the placement of components for each frame.
#[derive(Clone, Debug, PartialEq, Eq)]
pub struct AppRenderPlan {}

impl AppRenderPlan {
    /// Computes the placements for one frame: a pure, total function
    /// of the mode, the zoom state and the terminal area. The plan is
    /// never empty, lies inside `root`, and its rectangles are
    /// pairwise disjoint.
    pub fn compute_layouts(&self, mode: Mode, zoomed: bool, root: Rect) -> (r: Vec<
        (ComponentId, Rect),
    >)
        requires
            rect_wf(root),
        ensures
            r@ == spec_plan(mode, zoomed, root),
            r@.len() > 0,
            forall|i: int| 0 <= i < r@.len() ==> rect_in(#[trigger] r@[i].1, root),
            forall|i: int, j: int|
                0 <= i < j < r@.len() ==> rects_disjoint(#[trigger] r@[i].1, #[trigger] r@[j].1),
    {
        proof {
            lemma_plan_wf(mode, zoomed, root);
        }
        let mut r: Vec<(ComponentId, Rect)> = Vec::new();
        if matches!(mode, Mode::ConnectionMenu) {
            let (top, mid, bottom) = vsplit3(root, 20, 75);
            r.push((ComponentId::Title, top));
            r.push((ComponentId::ConnectionMenu, mid));
            r.push((ComponentId::Messages, bottom));
        } else if zoomed {
            r.push((focused_component(mode), root));
        } else {
            let (sidebar, main) = hsplit2(root, 20);
            let sidebar_id = if matches!(mode, Mode::ExploreSchemas) {
                ComponentId::SchemaList
            } else {
                ComponentId::TableList
            };
            let result_id = if matches!(mode, Mode::ExploreStructure) {
                ComponentId::StructureTable
            } else {
                ComponentId::ResultsTable
            };
            let (editor, result, messages) = vsplit3(main, 45, 80);
            r.push((sidebar_id, sidebar));
            r.push((ComponentId::TextEditor, editor));
            r.push((result_id, result));
            r.push((ComponentId::Messages, messages));
        }
        assert(r@ =~= spec_plan(mode, zoomed, root));
        r
    }
}

} // verus!
