//! Geometry descriptors: vertex data and where each attribute lies in it.

use vstd::prelude::*;

verus! {

/// One named vertex attribute and the byte offset at which it starts within
/// a vertex.
#[derive(Debug)]
pub struct AttributeLayout {
    pub name: String,
    pub offset: usize,
}

/// The mathematical value of an [`AttributeLayout`].
pub struct AttributeLayoutView {
    pub name: Seq<char>,
    pub offset: usize,
}

impl View for AttributeLayout {
    type V = AttributeLayoutView;

    open spec fn view(&self) -> AttributeLayoutView {
        AttributeLayoutView { name: self.name@, offset: self.offset }
    }
}

impl Clone for AttributeLayout {
    fn clone(&self) -> (copy: Self)
        ensures
            copy@ == self@,
    {
        AttributeLayout { name: self.name.clone(), offset: self.offset }
    }
}

/// The values of a table of attribute layouts, entry by entry.
pub open spec fn layout_view(table: Seq<AttributeLayout>) -> Seq<AttributeLayoutView> {
    table.map_values(|entry: AttributeLayout| entry@)
}

/// The byte offset that `table` gives for the attribute `name`: that of the
/// last entry so named, or `None` when no entry is.
pub open spec fn offset_of(table: Seq<AttributeLayoutView>, name: Seq<char>) -> Option<usize>
    decreases table.len(),
{
    if table.len() == 0 {
        None
    } else if table.last().name == name {
        Some(table.last().offset)
    } else {
        offset_of(table.drop_last(), name)
    }
}

/// Looks `name` up in `table`.
pub fn find_offset(table: &Vec<AttributeLayout>, name: &String) -> (offset: Option<usize>)
    ensures
        offset == offset_of(layout_view(table@), name@),
{
    let mut i: usize = table.len();
    assert(layout_view(table@).take(i as int) =~= layout_view(table@));
    while i > 0
        invariant
            i <= table.len(),
            offset_of(layout_view(table@), name@) == offset_of(layout_view(table@).take(i as int), name@),
        decreases i,
    {
        let ghost prefix = layout_view(table@).take(i as int);
        assert(prefix.last() == table@[i - 1]@);
        assert(prefix.drop_last() == layout_view(table@).take(i - 1));
        if table[i - 1].name == *name {
            return Some(table[i - 1].offset);
        }
        i = i - 1;
    }
    None
}

/// Copies a table of attribute layouts.
pub fn clone_layout(table: &Vec<AttributeLayout>) -> (copy: Vec<AttributeLayout>)
    ensures
        layout_view(copy@) == layout_view(table@),
{
    let mut copy: Vec<AttributeLayout> = Vec::new();
    let mut i: usize = 0;
    while i < table.len()
        invariant
            i <= table.len(),
            copy.len() == i,
            forall|k: int| 0 <= k < i ==> copy@[k]@ == table@[k]@,
        decreases table.len() - i,
    {
        copy.push(table[i].clone());
        i = i + 1;
    }
    assert(layout_view(copy@) =~= layout_view(table@));
    copy
}

/// A geometry descriptor. Two descriptors are the same resource exactly when
/// their `id`s are equal, whatever else they hold.
#[derive(Debug)]
pub struct Geometry {
    /// The stable identity of the geometry.
    pub id: u128,
    /// The number of bytes from one vertex to the next.
    pub stride: usize,
    /// Where each named attribute starts within a vertex.
    pub attributes: Vec<AttributeLayout>,
    /// The vertex data, one word per single-precision value.
    pub vertices: Vec<u32>,
}

/// The mathematical value of a [`Geometry`].
pub struct GeometryView {
    pub id: u128,
    pub stride: usize,
    pub attributes: Seq<AttributeLayoutView>,
    pub vertices: Seq<u32>,
}

impl View for Geometry {
    type V = GeometryView;

    open spec fn view(&self) -> GeometryView {
        GeometryView {
            id: self.id,
            stride: self.stride,
            attributes: layout_view(self.attributes@),
            vertices: self.vertices@,
        }
    }
}

impl Clone for Geometry {
    fn clone(&self) -> (copy: Self)
        ensures
            copy@ == self@,
    {
        Geometry {
            id: self.id,
            stride: self.stride,
            attributes: clone_layout(&self.attributes),
            vertices: self.vertices.clone(),
        }
    }
}

} // verus!
