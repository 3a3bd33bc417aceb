//! From one node to another: children, parents, siblings, and the node that
//! spans a stretch of text.
use vstd::prelude::*;
use crate::engine::{
    engine_child, engine_child_by_field_id, engine_child_by_field_name, engine_child_count,
    engine_descendant_for_byte_range, engine_descendant_for_point_range, engine_is_named,
    engine_named_child, engine_named_child_count, engine_named_descendant_for_byte_range,
    engine_named_descendant_for_point_range, engine_next_named_sibling, engine_next_sibling,
    engine_parent, engine_prev_named_sibling, engine_prev_sibling, find_child,
    find_child_by_field_id, find_child_by_field_name, find_descendant_for_byte_range,
    find_descendant_for_point_range, find_named_child, find_named_descendant_for_byte_range,
    find_named_descendant_for_point_range, find_next_named_sibling, find_next_sibling,
    find_parent, find_prev_named_sibling, find_prev_sibling, read_child_count,
    read_named_child_count,
};
use crate::error::BridgeError;
use crate::layout::require_child;
use crate::node::{Found, NodeHandle};
use crate::position::{Point, ENGINE_MAX};

verus! {

impl<'t> NodeHandle<'t> {
    /// What `child` answers.
    pub open spec fn spec_child(self, index: usize) -> Found<'t> {
        if index < engine_child_count(self.native()) {
            match engine_child(self.native(), index as u32) {
                None => Err(BridgeError::MissingChild),
                found => self.lift(found),
            }
        } else {
            Ok(None)
        }
    }

    /// The child at `index`, counted from zero. At or beyond the number of
    /// children there is none; below it there is one, or the engine has
    /// failed.
    pub fn child(&self, index: usize) -> (r: Found<'t>)
        ensures
            r == self.spec_child(index),
            index >= engine_child_count(self.native()) ==> r matches Ok(None),
            index < engine_child_count(self.native()) ==> !(r matches Ok(None)),
            r matches Ok(Some(child)) ==> child.wf() && child.storage() == self.storage(),
    {
        let count = read_child_count(self.inner());
        if index < count as usize {
            match require_child(find_child(self.inner(), index as u32)) {
                Ok(child) => self.wrap(Some(child)),
                Err(e) => Err(e),
            }
        } else {
            Ok(None)
        }
    }

    /// What `named_child` answers.
    pub open spec fn spec_named_child(self, index: usize) -> Found<'t> {
        if index < engine_named_child_count(self.native()) {
            match engine_named_child(self.native(), index as u32) {
                None => Err(BridgeError::MissingChild),
                found => self.lift_named(found),
            }
        } else {
            Ok(None)
        }
    }

    /// The named child at `index`, counted from zero among the named
    /// children. At or beyond their number there is none; below it there is
    /// one, or the engine has failed.
    pub fn named_child(&self, index: usize) -> (r: Found<'t>)
        ensures
            r == self.spec_named_child(index),
            index >= engine_named_child_count(self.native()) ==> r matches Ok(None),
            index < engine_named_child_count(self.native()) ==> !(r matches Ok(None)),
            r matches Ok(Some(child)) ==> child.wf() && child.storage() == self.storage()
                && engine_is_named(child.native()),
    {
        proof {
            use_type_invariant(self);
        }
        let count = read_named_child_count(self.inner());
        if index < count {
            match require_child(find_named_child(self.inner(), index as u32)) {
                Ok(child) => self.wrap_named(Some(child)),
                Err(e) => Err(e),
            }
        } else {
            Ok(None)
        }
    }

    /// What `child_by_field_name` answers.
    pub open spec fn spec_child_by_field_name(self, field_name: Seq<char>) -> Found<'t> {
        self.lift(engine_child_by_field_name(self.native(), field_name))
    }

    /// The child in the field of that name, as the engine finds it; the engine
    /// finds none where the grammar has no such field or the node does not
    /// fill it.
    pub fn child_by_field_name(&self, field_name: String) -> (r: Found<'t>)
        ensures
            r == self.spec_child_by_field_name(field_name@),
            r matches Ok(Some(found)) ==> found.wf() && found.storage() == self.storage(),
    {
        self.wrap(find_child_by_field_name(self.inner(), field_name.as_str()))
    }

    /// What `child_by_field_id` answers.
    pub open spec fn spec_child_by_field_id(self, field_id: u16) -> Found<'t> {
        self.lift(engine_child_by_field_id(self.native(), field_id))
    }

    /// The child in the field of that number, as the engine finds it; the
    /// engine finds none where the grammar has no such field or the node does
    /// not fill it.
    pub fn child_by_field_id(&self, field_id: u16) -> (r: Found<'t>)
        ensures
            r == self.spec_child_by_field_id(field_id),
            r matches Ok(Some(found)) ==> found.wf() && found.storage() == self.storage(),
    {
        self.wrap(find_child_by_field_id(self.inner(), field_id))
    }

    /// What `parent` answers.
    pub open spec fn spec_parent(self) -> Found<'t> {
        self.lift(engine_parent(self.native()))
    }

    /// The node's parent, as the engine finds it.
    pub fn parent(&self) -> (r: Found<'t>)
        ensures
            r == self.spec_parent(),
            r matches Ok(Some(found)) ==> found.wf() && found.storage() == self.storage(),
    {
        self.wrap(find_parent(self.inner()))
    }

    /// What `next_sibling` answers.
    pub open spec fn spec_next_sibling(self) -> Found<'t> {
        self.lift(engine_next_sibling(self.native()))
    }

    /// The sibling that follows the node, as the engine finds it.
    pub fn next_sibling(&self) -> (r: Found<'t>)
        ensures
            r == self.spec_next_sibling(),
            r matches Ok(Some(found)) ==> found.wf() && found.storage() == self.storage(),
    {
        self.wrap(find_next_sibling(self.inner()))
    }

    /// What `prev_sibling` answers.
    pub open spec fn spec_prev_sibling(self) -> Found<'t> {
        self.lift(engine_prev_sibling(self.native()))
    }

    /// The sibling that precedes the node, as the engine finds it.
    pub fn prev_sibling(&self) -> (r: Found<'t>)
        ensures
            r == self.spec_prev_sibling(),
            r matches Ok(Some(found)) ==> found.wf() && found.storage() == self.storage(),
    {
        self.wrap(find_prev_sibling(self.inner()))
    }

    /// What `next_named_sibling` answers.
    pub open spec fn spec_next_named_sibling(self) -> Found<'t> {
        self.lift_named(engine_next_named_sibling(self.native()))
    }

    /// The named sibling that follows the node, as the engine finds it; the
    /// answer is a named node.
    pub fn next_named_sibling(&self) -> (r: Found<'t>)
        ensures
            r == self.spec_next_named_sibling(),
            r matches Ok(Some(found)) ==> found.wf() && found.storage() == self.storage()
                && engine_is_named(found.native()),
    {
        self.wrap_named(find_next_named_sibling(self.inner()))
    }

    /// What `prev_named_sibling` answers.
    pub open spec fn spec_prev_named_sibling(self) -> Found<'t> {
        self.lift_named(engine_prev_named_sibling(self.native()))
    }

    /// The named sibling that precedes the node, as the engine finds it; the
    /// answer is a named node.
    pub fn prev_named_sibling(&self) -> (r: Found<'t>)
        ensures
            r == self.spec_prev_named_sibling(),
            r matches Ok(Some(found)) ==> found.wf() && found.storage() == self.storage()
                && engine_is_named(found.native()),
    {
        self.wrap_named(find_prev_named_sibling(self.inner()))
    }

    /// What `descendant_for_byte_range` answers.
    pub open spec fn spec_descendant_for_byte_range(self, start: usize, end: usize) -> Found<'t> {
        if start > end || end > ENGINE_MAX {
            Ok(None)
        } else {
            match self.lift(engine_descendant_for_byte_range(self.native(), start, end)) {
                Ok(Some(found)) => if found.spec_range().spans_bytes(start, end) {
                    Ok(Some(found))
                } else {
                    Ok(None)
                },
                other => other,
            }
        }
    }

    /// The smallest node within this one that spans the bytes from `start` to
    /// `end`, as the engine finds it; none where `end` lies before `start`,
    /// beyond what the engine can hold, or where what the engine found does not
    /// span them.
    pub fn descendant_for_byte_range(&self, start: usize, end: usize) -> (r: Found<'t>)
        ensures
            r == self.spec_descendant_for_byte_range(start, end),
            r matches Ok(Some(found)) ==> found.wf() && found.storage() == self.storage()
                && found.spec_range().spans_bytes(start, end),
    {
        if start > end || end > ENGINE_MAX {
            return Ok(None);
        }
        match self.wrap(find_descendant_for_byte_range(self.inner(), start, end)) {
            Ok(Some(found)) => if found.range().contains_bytes(start, end) {
                Ok(Some(found))
            } else {
                Ok(None)
            },
            other => other,
        }
    }

    /// What `descendant_for_point_range` answers.
    pub open spec fn spec_descendant_for_point_range(self, start: Point, end: Point) -> Found<'t> {
        if !start.le(end) || !start.fits_engine() || !end.fits_engine() {
            Ok(None)
        } else {
            match self.lift(engine_descendant_for_point_range(self.native(), start, end)) {
                Ok(Some(found)) => if found.spec_range().spans_points(start, end) {
                    Ok(Some(found))
                } else {
                    Ok(None)
                },
                other => other,
            }
        }
    }

    /// The smallest node within this one that spans the points from `start` to
    /// `end`, as the engine finds it; none where `end` lies before `start`,
    /// where a point lies beyond what the engine can hold, or where what the
    /// engine found does not span them.
    pub fn descendant_for_point_range(&self, start: Point, end: Point) -> (r: Found<'t>)
        ensures
            r == self.spec_descendant_for_point_range(start, end),
            r matches Ok(Some(found)) ==> found.wf() && found.storage() == self.storage()
                && found.spec_range().spans_points(start, end),
    {
        if !start.at_or_before(&end) || !start.within_engine() || !end.within_engine() {
            return Ok(None);
        }
        match self.wrap(find_descendant_for_point_range(self.inner(), start, end)) {
            Ok(Some(found)) => if found.range().contains_points(start, end) {
                Ok(Some(found))
            } else {
                Ok(None)
            },
            other => other,
        }
    }

    /// What `named_descendant_for_byte_range` answers.
    pub open spec fn spec_named_descendant_for_byte_range(
        self,
        start: usize,
        end: usize,
    ) -> Found<'t> {
        if start > end || end > ENGINE_MAX {
            Ok(None)
        } else {
            match self.lift(engine_named_descendant_for_byte_range(self.native(), start, end)) {
                Ok(Some(found)) => if found.spec_range().spans_bytes(start, end)
                    && engine_is_named(found.native()) {
                    Ok(Some(found))
                } else {
                    Ok(None)
                },
                other => other,
            }
        }
    }

    /// The smallest named node within this one that spans the bytes from
    /// `start` to `end`, as the engine finds it; none where `end` lies before
    /// `start`, beyond what the engine can hold, or where what the engine found
    /// is anonymous or does not span them.
    pub fn named_descendant_for_byte_range(&self, start: usize, end: usize) -> (r: Found<'t>)
        ensures
            r == self.spec_named_descendant_for_byte_range(start, end),
            r matches Ok(Some(found)) ==> found.wf() && found.storage() == self.storage()
                && found.spec_range().spans_bytes(start, end) && engine_is_named(found.native()),
    {
        if start > end || end > ENGINE_MAX {
            return Ok(None);
        }
        match self.wrap(find_named_descendant_for_byte_range(self.inner(), start, end)) {
            Ok(Some(found)) => if found.range().contains_bytes(start, end) && found.is_named() {
                Ok(Some(found))
            } else {
                Ok(None)
            },
            other => other,
        }
    }

    /// What `named_descendant_for_point_range` answers.
    pub open spec fn spec_named_descendant_for_point_range(
        self,
        start: Point,
        end: Point,
    ) -> Found<'t> {
        if !start.le(end) || !start.fits_engine() || !end.fits_engine() {
            Ok(None)
        } else {
            match self.lift(engine_named_descendant_for_point_range(self.native(), start, end)) {
                Ok(Some(found)) => if found.spec_range().spans_points(start, end)
                    && engine_is_named(found.native()) {
                    Ok(Some(found))
                } else {
                    Ok(None)
                },
                other => other,
            }
        }
    }

    /// The smallest named node within this one that spans the points from
    /// `start` to `end`, as the engine finds it; none where `end` lies before
    /// `start`, where a point lies beyond what the engine can hold, or where
    /// what the engine found is anonymous or does not span them.
    pub fn named_descendant_for_point_range(&self, start: Point, end: Point) -> (r: Found<'t>)
        ensures
            r == self.spec_named_descendant_for_point_range(start, end),
            r matches Ok(Some(found)) ==> found.wf() && found.storage() == self.storage()
                && found.spec_range().spans_points(start, end) && engine_is_named(found.native()),
    {
        if !start.at_or_before(&end) || !start.within_engine() || !end.within_engine() {
            return Ok(None);
        }
        match self.wrap(find_named_descendant_for_point_range(self.inner(), start, end)) {
            Ok(Some(found)) => if found.range().contains_points(start, end) && found.is_named() {
                Ok(Some(found))
            } else {
                Ok(None)
            },
            other => other,
        }
    }

}

} // verus!
