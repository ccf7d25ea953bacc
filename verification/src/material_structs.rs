//! The values that describe a surface and a light to the shading programs.

use vstd::prelude::*;
use crate::math::{Scalar, Vector3};

verus! {

/// How a surface answers to light.
#[derive(Debug, Clone, Copy, PartialEq, Eq)]
pub struct MaterialInfo {
    pub ambient: Vector3,
    pub diffuse: Vector3,
    pub specular: Scalar,
    pub shininess: Scalar,
}

#[derive(Debug, Clone, Copy, PartialEq, Eq)]
pub struct DirectionalLightInfo {
    pub color: Vector3,
}

#[derive(Debug, Clone, Copy, PartialEq, Eq)]
pub struct PointLightInfo {
    pub color: Vector3,
    pub radius: Scalar,
}

#[derive(Debug, Clone, Copy, PartialEq, Eq)]
pub struct SpotLightInfo {
    pub color: Vector3,
    pub radius: Scalar,
}

} // verus!
