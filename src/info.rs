use vstd::prelude::*;

verus! {

/// Metadata about an MBean attribute, as `javax.management.MBeanAttributeInfo`
/// describes it.
#[derive(Clone, Eq, PartialEq, Ord, PartialOrd, Hash, Debug)]
pub struct MBeanAttribute {
    pub description: String,
    /// The attribute is read through an "is" getter.
    pub is_is: bool,
    pub is_readable: bool,
    pub is_writable: bool,
    pub name: String,
    /// The Java class name of the attribute's values.
    pub java_type: String,
}

/// Metadata about an MBean, as `javax.management.MBeanInfo` describes it.
#[derive(Clone, Eq, PartialEq, Ord, PartialOrd, Hash, Debug)]
pub struct MBeanInfo {
    /// The attributes, in the order the server lists them.
    pub attributes: Vec<MBeanAttribute>,
    pub class_name: String,
    pub description: String,
}

} // verus!
