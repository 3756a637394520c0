use std::collections::HashMap;
use vstd::prelude::*;

use crate::store::base::{Class, ClassView, STATUS_UNLOADED};

verus! {

broadcast use vstd::std_specs::hash::group_hash_axioms;

/// The classes that a table holds, as models, by serial number.
pub open spec fn class_views(classes: Map<u32, Class>) -> Map<u32, ClassView> {
    classes.map_values(|class: Class| class@)
}

/// The table after the class `class` has been loaded: it stands under its
/// serial number, in place of what stood there before.
pub open spec fn spec_load(classes: Map<u32, ClassView>, class: ClassView) -> Map<u32, ClassView> {
    classes.insert(class.serial, class)
}

/// The table after the class with the serial number `serial` has been
/// unloaded: that class is marked, if the table holds it; nothing else
/// changes, and nothing is removed.
pub open spec fn spec_unload(classes: Map<u32, ClassView>, serial: u32) -> Map<u32, ClassView> {
    if classes.contains_key(serial) {
        classes.insert(serial, classes[serial].unloaded())
    } else {
        classes
    }
}

/// Enters a class that has been loaded.
pub fn load_class(classes: &mut HashMap<u32, Class>, class: Class)
    ensures
        class_views(final(classes)@) == spec_load(class_views(old(classes)@), class@),
{
    let serial: u32 = *class.serial();
    classes.insert(serial, class);
    assert(class_views(classes@) =~= spec_load(class_views(old(classes)@), class@));
}

/// Marks the class with the serial number `serial` as unloaded. A serial
/// number that the table does not hold changes nothing and is no error.
pub fn unload_class(classes: &mut HashMap<u32, Class>, serial: u32)
    ensures
        class_views(final(classes)@) == spec_unload(class_views(old(classes)@), serial),
{
    match classes.remove(&serial) {
        None => {
            assert(class_views(classes@) =~= class_views(old(classes)@));
        },
        Some(class) => {
            let mut class = class;
            class.unload();
            classes.insert(serial, class);
            assert(class_views(classes@) =~= spec_unload(class_views(old(classes)@), serial));
        },
    }
}

/// Unloading a class that has just been loaded leaves it in the table,
/// unloaded, and otherwise as it was loaded.
pub proof fn unload_after_load(classes: Map<u32, ClassView>, class: ClassView)
    ensures
        spec_unload(spec_load(classes, class), class.serial).contains_key(class.serial),
        spec_unload(spec_load(classes, class), class.serial)[class.serial] == class.unloaded(),
        class.unloaded().status == STATUS_UNLOADED,
{
}

/// No unload removes a class, and none turns an unloaded class back into a
/// loaded one.
pub proof fn unload_is_final(classes: Map<u32, ClassView>, serial: u32, any: u32)
    requires
        classes.contains_key(serial),
    ensures
        spec_unload(classes, any).contains_key(serial),
        classes[serial].status == STATUS_UNLOADED ==> spec_unload(classes, any)[serial].status
            == STATUS_UNLOADED,
        any != serial ==> spec_unload(classes, any)[serial] == classes[serial],
{
}

/// Unloading a serial number that was never loaded changes nothing.
pub proof fn unload_of_unknown_changes_nothing(classes: Map<u32, ClassView>, serial: u32)
    requires
        !classes.contains_key(serial),
    ensures
        spec_unload(classes, serial) == classes,
{
}

/// Loading a class leaves every class under another serial number as it
/// was.
pub proof fn load_keeps_other_classes(classes: Map<u32, ClassView>, class: ClassView, serial: u32)
    requires
        serial != class.serial,
    ensures
        spec_load(classes, class).contains_key(serial) == classes.contains_key(serial),
        classes.contains_key(serial) ==> spec_load(classes, class)[serial] == classes[serial],
{
}

} // verus!
