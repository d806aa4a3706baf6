//! Selection controller: which pickable objects are selected.
//!
//! A click on an object toggles it and deselects every other object; a press
//! on empty space that no widget took deselects everything.

use vstd::prelude::*;

verus! {

/// What the pointer did to one object or widget during a tick.
#[derive(Clone, Copy, Debug, PartialEq, Eq, Structural)]
pub enum Interaction {
    Clicked,
    Hovered,
    Untouched,
}

/// Selection state of one pickable object. The two appearances, of a type
/// `A` of the renderer's choosing, are carried along and never looked into.
#[derive(Clone, Debug, PartialEq, Eq)]
pub struct Selectable<A> {
    pub selected: bool,
    pub unselected_appearance: A,
    pub selected_appearance: A,
}

impl<A> Selectable<A> {
    /// Whether the object is selected.
    pub fn selected(&self) -> (s: bool)
        ensures
            s == self.selected,
    {
        self.selected
    }

    /// Selects or deselects the object; its appearances stay.
    pub fn set_selected(&mut self, selected: bool)
        ensures
            *final(self) == (Selectable { selected, ..*old(self) }),
    {
        self.selected = selected;
    }

    /// The appearance that the renderer is to show now.
    pub fn active_appearance(&self) -> (a: &A)
        ensures
            *a == if self.selected {
                self.selected_appearance
            } else {
                self.unselected_appearance
            },
    {
        if self.selected {
            &self.selected_appearance
        } else {
            &self.unselected_appearance
        }
    }
}

/// Selection state for an object seen during a tick. An object seen for the
/// first time starts unselected, with `current`, the appearance it has now,
/// as its unselected appearance and `highlight` as its selected one. An
/// object seen before is returned as it is: its unselected appearance was
/// taken when it was first seen and is not taken again.
pub fn init_selection_material<A>(existing: Option<Selectable<A>>, current: A, highlight: A) -> (s:
    Selectable<A>)
    ensures
        s == match existing {
            Some(known) => known,
            None => Selectable {
                selected: false,
                unselected_appearance: current,
                selected_appearance: highlight,
            },
        },
{
    match existing {
        Some(known) => known,
        None => Selectable {
            selected: false,
            unselected_appearance: current,
            selected_appearance: highlight,
        },
    }
}

/// Whether object `i` reports a click. An object without an entry in `edges`
/// reports nothing.
pub open spec fn clicked_at(edges: Seq<Interaction>, i: int) -> bool {
    0 <= i < edges.len() && edges[i] == Interaction::Clicked
}

/// Whether any of the first `count` objects reports a click.
pub open spec fn any_clicked(edges: Seq<Interaction>, count: int) -> bool {
    exists|i: int| 0 <= i < count && clicked_at(edges, i)
}

/// The flag of one object after a tick. If some object was clicked, the
/// clicked object is toggled and every other one is deselected. Otherwise a
/// press that no widget took deselects the object. Otherwise it stays.
pub open spec fn selected_after(
    was_selected: bool,
    clicked: bool,
    some_clicked: bool,
    pressed: bool,
    ui_clicked: bool,
) -> bool {
    if some_clicked {
        clicked && !was_selected
    } else if pressed && !ui_clicked {
        false
    } else {
        was_selected
    }
}

/// All objects after a tick.
pub open spec fn updated<A>(
    objects: Seq<Selectable<A>>,
    edges: Seq<Interaction>,
    pressed: bool,
    ui_clicked: bool,
) -> Seq<Selectable<A>> {
    Seq::new(
        objects.len(),
        |i: int|
            Selectable {
                selected: selected_after(
                    objects[i].selected,
                    clicked_at(edges, i),
                    any_clicked(edges, objects.len() as int),
                    pressed,
                    ui_clicked,
                ),
                ..objects[i]
            },
    )
}

/// How many objects are selected.
pub open spec fn count_selected<A>(objects: Seq<Selectable<A>>) -> nat
    decreases objects.len(),
{
    if objects.len() == 0 {
        0
    } else {
        count_selected(objects.drop_last()) + if objects.last().selected {
            1nat
        } else {
            0nat
        }
    }
}

/// Whether at most one of the objects reports a click.
pub open spec fn one_click_at_most(edges: Seq<Interaction>, count: int) -> bool {
    forall|i: int, j: int|
        0 <= i < count && 0 <= j < count && clicked_at(edges, i) && clicked_at(edges, j) ==> i == j
}

/// Applies one tick to `objects`. Entry `i` of `edges` is what the pointer did
/// to object `i`; `mouse_pressed` and `touch_pressed` say whether the primary
/// button or a first touch went down during the tick, `ui_clicked` whether a
/// widget took that press.
pub fn add_selection<A>(
    objects: &mut Vec<Selectable<A>>,
    edges: &Vec<Interaction>,
    mouse_pressed: bool,
    touch_pressed: bool,
    ui_clicked: bool,
)
    ensures
        final(objects)@ == updated(old(objects)@, edges@, mouse_pressed || touch_pressed, ui_clicked),
{
    let count = objects.len();
    let mut some_clicked = false;
    let mut k: usize = 0;
    while k < count && k < edges.len()
        invariant
            k <= count,
            some_clicked == any_clicked(edges@, k as int),
        decreases count - k,
    {
        if edges[k] == Interaction::Clicked {
            some_clicked = true;
            assert(clicked_at(edges@, k as int));
        }
        k += 1;
    }
    let pressed = mouse_pressed || touch_pressed;
    let ghost before = objects@;
    let mut i: usize = 0;
    while i < count
        invariant
            i <= count,
            count == before.len(),
            objects@.len() == count,
            some_clicked == any_clicked(edges@, count as int),
            forall|j: int| 0 <= j < i ==> objects@[j] == updated(before, edges@, pressed, ui_clicked)[j],
            forall|j: int| i <= j < count ==> objects@[j] == before[j],
        decreases count - i,
    {
        let clicked = i < edges.len() && edges[i] == Interaction::Clicked;
        let was = objects[i].selected;
        let now = if some_clicked {
            clicked && !was
        } else if pressed && !ui_clicked {
            false
        } else {
            was
        };
        objects[i].selected = now;
        i += 1;
    }
}

/// Counts the selected objects.
pub fn selected_count<A>(objects: &Vec<Selectable<A>>) -> (n: usize)
    ensures
        n == count_selected(objects@),
{
    let mut n: usize = 0;
    let mut i: usize = 0;
    while i < objects.len()
        invariant
            i <= objects.len(),
            n == count_selected(objects@.take(i as int)),
            n <= i,
        decreases objects.len() - i,
    {
        assert(objects@.take(i + 1).drop_last() == objects@.take(i as int));
        if objects[i].selected {
            n += 1;
        }
        i += 1;
    }
    assert(objects@.take(i as int) == objects@);
    n
}

/// If no two objects are selected, at most one is counted.
proof fn lemma_count_of_distinct<A>(objects: Seq<Selectable<A>>)
    requires
        forall|i: int, j: int|
            0 <= i < objects.len() && 0 <= j < objects.len() && objects[i].selected
                && objects[j].selected ==> i == j,
    ensures
        count_selected(objects) <= 1,
        count_selected(objects) == 1 ==> exists|i: int|
            0 <= i < objects.len() && objects[i].selected,
    decreases objects.len(),
{
    if objects.len() > 0 {
        lemma_count_of_distinct(objects.drop_last());
    }
}

/// Selection is exclusive: where at most one object reports a click during a
/// tick, a tick that starts with at most one object selected ends with at
/// most one selected; and a tick that changes the selection, by a click or by
/// a press on empty space, ends with at most one selected whatever went
/// before.
pub proof fn lemma_selection_exclusive<A>(
    objects: Seq<Selectable<A>>,
    edges: Seq<Interaction>,
    pressed: bool,
    ui_clicked: bool,
)
    requires
        one_click_at_most(edges, objects.len() as int),
    ensures
        count_selected(objects) <= 1 ==> count_selected(
            updated(objects, edges, pressed, ui_clicked),
        ) <= 1,
        any_clicked(edges, objects.len() as int) || (pressed && !ui_clicked) ==> count_selected(
            updated(objects, edges, pressed, ui_clicked),
        ) <= 1,
{
    let after = updated(objects, edges, pressed, ui_clicked);
    if any_clicked(edges, objects.len() as int) || (pressed && !ui_clicked) {
        lemma_count_of_distinct(after);
    } else {
        assert(after =~= objects);
    }
}

/// What one tick brings to the selection.
pub struct Tick {
    pub edges: Seq<Interaction>,
    pub pressed: bool,
    pub ui_clicked: bool,
}

/// All objects after the ticks `ticks`, in order.
pub open spec fn updated_through<A>(objects: Seq<Selectable<A>>, ticks: Seq<Tick>) -> Seq<
    Selectable<A>,
>
    decreases ticks.len(),
{
    if ticks.len() == 0 {
        objects
    } else {
        updated(
            updated_through(objects, ticks.drop_last()),
            ticks.last().edges,
            ticks.last().pressed,
            ticks.last().ui_clicked,
        )
    }
}

/// Through any run of ticks in each of which at most one object reports a
/// click, objects of which at most one is selected at the start keep at most
/// one selected.
pub proof fn lemma_selection_stays_exclusive<A>(objects: Seq<Selectable<A>>, ticks: Seq<Tick>)
    requires
        count_selected(objects) <= 1,
        forall|t: int|
            0 <= t < ticks.len() ==> one_click_at_most(
                #[trigger] ticks[t].edges,
                objects.len() as int,
            ),
    ensures
        updated_through(objects, ticks).len() == objects.len(),
        count_selected(updated_through(objects, ticks)) <= 1,
    decreases ticks.len(),
{
    if ticks.len() > 0 {
        let earlier = ticks.drop_last();
        lemma_selection_stays_exclusive(objects, earlier);
        lemma_selection_exclusive(
            updated_through(objects, earlier),
            ticks.last().edges,
            ticks.last().pressed,
            ticks.last().ui_clicked,
        );
    }
}

/// A press on empty space that no widget took, in a tick without a click,
/// leaves nothing selected.
pub proof fn lemma_press_on_empty_space_clears<A>(
    objects: Seq<Selectable<A>>,
    edges: Seq<Interaction>,
)
    requires
        !any_clicked(edges, objects.len() as int),
    ensures
        count_selected(updated(objects, edges, true, false)) == 0,
{
    let after = updated(objects, edges, true, false);
    lemma_count_of_distinct(after);
}

} // verus!
