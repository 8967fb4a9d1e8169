//! Checks that a native binding function agrees with a JNI method descriptor:
//! its name follows the `Java_<Class>_<method>` convention, it takes the two
//! context parameters, and its parameter and return types are accepted by the
//! descriptor's type fragments.
pub mod text;
pub mod error;
pub mod registry;
pub mod descriptor;
pub mod validate;
