//! The layout planner: every plan is non-empty, inside the root
//! area, and free of overlap; each mode gets its prescribed bands.

use lazydb::render_plan::{AppRenderPlan, ComponentId, Rect};
use lazydb::Mode;

fn all_modes() -> Vec<Mode> {
    vec![
        Mode::ConnectionMenu,
        Mode::EditQuery,
        Mode::ExploreResults,
        Mode::ExploreTables,
        Mode::ExploreStructure,
        Mode::ExploreSchemas,
    ]
}

fn contained(r: &Rect, outer: &Rect) -> bool {
    outer.x <= r.x
        && r.x as u32 + r.width as u32 <= outer.x as u32 + outer.width as u32
        && outer.y <= r.y
        && r.y as u32 + r.height as u32 <= outer.y as u32 + outer.height as u32
}

fn disjoint(a: &Rect, b: &Rect) -> bool {
    a.x as u32 + a.width as u32 <= b.x as u32
        || b.x as u32 + b.width as u32 <= a.x as u32
        || a.y as u32 + a.height as u32 <= b.y as u32
        || b.y as u32 + b.height as u32 <= a.y as u32
        || a.width == 0
        || a.height == 0
        || b.width == 0
        || b.height == 0
}

#[test]
fn plan_wf_every_mode_and_zoom() {
    let planner = AppRenderPlan {};
    let root = Rect { x: 2, y: 3, width: 120, height: 40 };
    for mode in all_modes() {
        for zoomed in [false, true] {
            let plan = planner.compute_layouts(mode, zoomed, root);
            assert!(!plan.is_empty());
            for (_, r) in &plan {
                assert!(contained(r, &root));
            }
            for i in 0..plan.len() {
                for j in 0..plan.len() {
                    if i != j {
                        assert!(disjoint(&plan[i].1, &plan[j].1));
                    }
                }
            }
        }
    }
}

#[test]
fn connection_menu_has_three_bands() {
    let planner = AppRenderPlan {};
    let root = Rect { x: 0, y: 0, width: 100, height: 40 };
    let plan = planner.compute_layouts(Mode::ConnectionMenu, false, root);
    let ids: Vec<ComponentId> = plan.iter().map(|(id, _)| *id).collect();
    assert_eq!(
        ids,
        vec![ComponentId::Title, ComponentId::ConnectionMenu, ComponentId::Messages]
    );
    // 20% of 40 rows, then 75% of the rest, then the remainder.
    assert_eq!(plan[0].1.height, 8);
    assert_eq!(plan[1].1.height, 24);
    assert_eq!(plan[2].1.height, 8);
    assert_eq!(plan[1].1.y, 8);
    assert_eq!(plan[2].1.y, 32);
}

#[test]
fn connection_menu_ignores_zoom() {
    let planner = AppRenderPlan {};
    let root = Rect { x: 0, y: 0, width: 100, height: 40 };
    let normal = planner.compute_layouts(Mode::ConnectionMenu, false, root);
    let zoomed = planner.compute_layouts(Mode::ConnectionMenu, true, root);
    assert_eq!(normal, zoomed);
}

#[test]
fn zoomed_mode_is_single_full_area_pane() {
    let planner = AppRenderPlan {};
    let root = Rect { x: 1, y: 1, width: 80, height: 24 };
    let cases = vec![
        (Mode::EditQuery, ComponentId::TextEditor),
        (Mode::ExploreResults, ComponentId::ResultsTable),
        (Mode::ExploreTables, ComponentId::TableList),
        (Mode::ExploreStructure, ComponentId::StructureTable),
        (Mode::ExploreSchemas, ComponentId::SchemaList),
    ];
    for (mode, id) in cases {
        let plan = planner.compute_layouts(mode, true, root);
        assert_eq!(plan.len(), 1);
        assert_eq!(plan[0].0, id);
        assert_eq!(plan[0].1, root);
    }
}

#[test]
fn sidebar_and_result_view_follow_mode() {
    let planner = AppRenderPlan {};
    let root = Rect { x: 0, y: 0, width: 100, height: 40 };
    let plan = planner.compute_layouts(Mode::ExploreResults, false, root);
    let ids: Vec<ComponentId> = plan.iter().map(|(id, _)| *id).collect();
    assert_eq!(
        ids,
        vec![
            ComponentId::TableList,
            ComponentId::TextEditor,
            ComponentId::ResultsTable,
            ComponentId::Messages,
        ]
    );

    let plan = planner.compute_layouts(Mode::ExploreStructure, false, root);
    let ids: Vec<ComponentId> = plan.iter().map(|(id, _)| *id).collect();
    assert!(ids.contains(&ComponentId::StructureTable));
    assert!(!ids.contains(&ComponentId::ResultsTable));

    let plan = planner.compute_layouts(Mode::ExploreSchemas, false, root);
    let ids: Vec<ComponentId> = plan.iter().map(|(id, _)| *id).collect();
    assert!(ids.contains(&ComponentId::SchemaList));
    assert!(!ids.contains(&ComponentId::TableList));
}

#[test]
fn tiny_areas_still_plan() {
    let planner = AppRenderPlan {};
    for root in [
        Rect { x: 0, y: 0, width: 0, height: 0 },
        Rect { x: 0, y: 0, width: 1, height: 1 },
        Rect { x: 5, y: 7, width: 3, height: 2 },
    ] {
        for mode in all_modes() {
            let plan = planner.compute_layouts(mode, false, root);
            assert!(!plan.is_empty());
            for (_, r) in &plan {
                assert!(contained(r, &root));
            }
        }
    }
}
