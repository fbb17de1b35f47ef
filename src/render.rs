//! What a redraw shows, as plain values: the menu bar's active tab and, on the
//! project tab, the list of names and the detail panel.
use crate::db::Project;
use crate::screen::{MenuItem, ScreenState, menu_position};
use crate::time::display_text;
use vstd::prelude::*;

verus! {

/// The right-hand panel of the project tab.
pub enum Detail {
    /// No record to show: the panel reads "No project selected".
    Placeholder,
    /// Every field of the selected record, the creation time as text.
    Record { id: String, name: String, directory: String, created_at: String },
}

/// The project tab: the names in store order, the highlighted position and the detail panel.
pub struct ProjectsPanel {
    pub names: Vec<String>,
    pub highlighted: Option<usize>,
    pub detail: Detail,
}

/// The area under the menu bar.
pub enum Body {
    Home,
    Projects(ProjectsPanel),
}

/// A whole redraw.
pub struct Frame {
    pub menu_selected: usize,
    pub body: Body,
}

/// `d` shows every field of `p`.
pub open spec fn shows(d: Detail, p: Project) -> bool {
    match d {
        Detail::Record { id, name, directory, created_at } => {
            &&& id@ == p.id@
            &&& name@ == p.name@
            &&& directory@ == p.directory@
            &&& created_at@ == display_text(p.created_at@.0, p.created_at@.1)
        },
        Detail::Placeholder => false,
    }
}

/// The project tab drawn for `selected` over the records `ps`.
pub open spec fn projects_panel_spec(panel: ProjectsPanel, selected: Option<usize>, ps: Seq<Project>) -> bool {
    &&& panel.names@.len() == ps.len()
    &&& forall|i: int| 0 <= i < ps.len() ==> (#[trigger] panel.names@[i])@ == ps[i].name@
    &&& panel.highlighted == selected
    &&& match selected {
        Some(s) if s < ps.len() => shows(panel.detail, ps[s as int]),
        _ => panel.detail is Placeholder,
    }
}

/// Draws the project tab: the list of names, and the selected record in detail,
/// or the placeholder when nothing in the list is selected.
pub fn render_projects(selected: Option<usize>, ps: &Vec<Project>) -> (r: ProjectsPanel)
    ensures
        projects_panel_spec(r, selected, ps@),
{
    let mut names: Vec<String> = Vec::new();
    let mut i: usize = 0;
    while i < ps.len()
        invariant
            i <= ps.len(),
            names@.len() == i,
            forall|j: int| 0 <= j < i ==> (#[trigger] names@[j])@ == ps@[j].name@,
        decreases ps.len() - i,
    {
        names.push(ps[i].name.clone());
        i = i + 1;
    }
    let detail = match selected {
        Some(s) => {
            if s < ps.len() {
                let p = &ps[s];
                Detail::Record {
                    id: p.id.clone(),
                    name: p.name.clone(),
                    directory: p.directory.clone(),
                    created_at: p.created_at.to_display(),
                }
            } else {
                Detail::Placeholder
            }
        },
        None => Detail::Placeholder,
    };
    ProjectsPanel { names, highlighted: selected, detail }
}

/// Draws the screen for the state `st` over the records `ps`.
pub fn render(st: &ScreenState, ps: &Vec<Project>) -> (r: Frame)
    ensures
        r.menu_selected == menu_position(st.active),
        st.active == MenuItem::Home ==> r.body is Home,
        st.active == MenuItem::Projects ==> (r.body matches Body::Projects(panel)
            && projects_panel_spec(panel, st.selected, ps@)),
{
    let menu_selected: usize = usize::from(st.active);
    match st.active {
        MenuItem::Home => Frame { menu_selected, body: Body::Home },
        MenuItem::Projects => Frame {
            menu_selected,
            body: Body::Projects(render_projects(st.selected, ps)),
        },
    }
}

/// With no records, the detail panel is the placeholder, whatever the selection.
pub proof fn lemma_empty_store_shows_placeholder(panel: ProjectsPanel, selected: Option<usize>, ps: Seq<Project>)
    requires
        ps.len() == 0,
        projects_panel_spec(panel, selected, ps),
    ensures
        panel.detail is Placeholder,
        panel.names@.len() == 0,
{
}

} // verus!
