//! Named affine-transform constructors and a fluent composition builder.
//! Each newly appended transform pre-multiplies the accumulated matrix,
//! so a chain reads in application order.

use vstd::prelude::*;

verus! {

use crate::fixed::{within, MUL_MAX, SCALE};
use crate::matrices::{spec_entries_within4, spec_matmul, Matrix4};

/// The identity with the translation column set to `(x, y, z)`.
pub open spec fn spec_translation(x: i64, y: i64, z: i64) -> Matrix4 {
    Matrix4 {
        m00: SCALE,
        m01: 0,
        m02: 0,
        m03: x,
        m10: 0,
        m11: SCALE,
        m12: 0,
        m13: y,
        m20: 0,
        m21: 0,
        m22: SCALE,
        m23: z,
        m30: 0,
        m31: 0,
        m32: 0,
        m33: SCALE,
    }
}

/// The identity with the diagonal set to `(x, y, z)`.
pub open spec fn spec_scaling(x: i64, y: i64, z: i64) -> Matrix4 {
    Matrix4 {
        m00: x,
        m01: 0,
        m02: 0,
        m03: 0,
        m10: 0,
        m11: y,
        m12: 0,
        m13: 0,
        m20: 0,
        m21: 0,
        m22: z,
        m23: 0,
        m30: 0,
        m31: 0,
        m32: 0,
        m33: SCALE,
    }
}

/// Right-handed rotation about the x axis, from the angle's sine and
/// cosine in units.
pub open spec fn spec_rotation_x(sin_r: i64, cos_r: i64) -> Matrix4 {
    Matrix4 {
        m00: SCALE,
        m01: 0,
        m02: 0,
        m03: 0,
        m10: 0,
        m11: cos_r,
        m12: (-(sin_r as int)) as i64,
        m13: 0,
        m20: 0,
        m21: sin_r,
        m22: cos_r,
        m23: 0,
        m30: 0,
        m31: 0,
        m32: 0,
        m33: SCALE,
    }
}

/// Right-handed rotation about the y axis.
pub open spec fn spec_rotation_y(sin_r: i64, cos_r: i64) -> Matrix4 {
    Matrix4 {
        m00: cos_r,
        m01: 0,
        m02: sin_r,
        m03: 0,
        m10: 0,
        m11: SCALE,
        m12: 0,
        m13: 0,
        m20: (-(sin_r as int)) as i64,
        m21: 0,
        m22: cos_r,
        m23: 0,
        m30: 0,
        m31: 0,
        m32: 0,
        m33: SCALE,
    }
}

/// Right-handed rotation about the z axis.
pub open spec fn spec_rotation_z(sin_r: i64, cos_r: i64) -> Matrix4 {
    Matrix4 {
        m00: cos_r,
        m01: (-(sin_r as int)) as i64,
        m02: 0,
        m03: 0,
        m10: sin_r,
        m11: cos_r,
        m12: 0,
        m13: 0,
        m20: 0,
        m21: 0,
        m22: SCALE,
        m23: 0,
        m30: 0,
        m31: 0,
        m32: 0,
        m33: SCALE,
    }
}

/// The identity with the six shear cells set.
pub open spec fn spec_shearing(xy: i64, xz: i64, yx: i64, yz: i64, zx: i64, zy: i64) -> Matrix4 {
    Matrix4 {
        m00: SCALE,
        m01: xy,
        m02: xz,
        m03: 0,
        m10: yx,
        m11: SCALE,
        m12: yz,
        m13: 0,
        m20: zx,
        m21: zy,
        m22: SCALE,
        m23: 0,
        m30: 0,
        m31: 0,
        m32: 0,
        m33: SCALE,
    }
}

/// Translation matrix.
pub fn translation(x: i64, y: i64, z: i64) -> (r: Matrix4)
    ensures
        r == spec_translation(x, y, z),
{
    let mut result = Matrix4::identity_matrix();
    result.m03 = x;
    result.m13 = y;
    result.m23 = z;
    result
}

/// Scaling matrix.
pub fn scaling(x: i64, y: i64, z: i64) -> (r: Matrix4)
    ensures
        r == spec_scaling(x, y, z),
{
    let mut result = Matrix4::identity_matrix();
    result.m00 = x;
    result.m11 = y;
    result.m22 = z;
    result
}

/// Rotation about the x axis.  The caller supplies the angle's sine and
/// cosine in units, at most one whole turn's worth each.
pub fn rotation_x(sin_r: i64, cos_r: i64) -> (r: Matrix4)
    requires
        within(sin_r as int, SCALE as int),
        within(cos_r as int, SCALE as int),
    ensures
        r == spec_rotation_x(sin_r, cos_r),
{
    let mut result = Matrix4::identity_matrix();
    result.m11 = cos_r;
    result.m12 = -sin_r;
    result.m21 = sin_r;
    result.m22 = cos_r;
    result
}

/// Rotation about the y axis.
pub fn rotation_y(sin_r: i64, cos_r: i64) -> (r: Matrix4)
    requires
        within(sin_r as int, SCALE as int),
        within(cos_r as int, SCALE as int),
    ensures
        r == spec_rotation_y(sin_r, cos_r),
{
    let mut result = Matrix4::identity_matrix();
    result.m00 = cos_r;
    result.m20 = -sin_r;
    result.m02 = sin_r;
    result.m22 = cos_r;
    result
}

/// Rotation about the z axis.
pub fn rotation_z(sin_r: i64, cos_r: i64) -> (r: Matrix4)
    requires
        within(sin_r as int, SCALE as int),
        within(cos_r as int, SCALE as int),
    ensures
        r == spec_rotation_z(sin_r, cos_r),
{
    let mut result = Matrix4::identity_matrix();
    result.m00 = cos_r;
    result.m10 = sin_r;
    result.m01 = -sin_r;
    result.m11 = cos_r;
    result
}

/// Shearing matrix.
pub fn shearing(xy: i64, xz: i64, yx: i64, yz: i64, zx: i64, zy: i64) -> (r: Matrix4)
    ensures
        r == spec_shearing(xy, xz, yx, yz, zx, zy),
{
    let mut result = Matrix4::identity_matrix();
    result.m01 = xy;
    result.m02 = xz;
    result.m10 = yx;
    result.m12 = yz;
    result.m20 = zx;
    result.m21 = zy;
    result
}

/// Anything that can be mapped through a matrix: the impl names its
/// model and the input range it supports.
pub trait Transform: Sized {
    /// The transformed value in the model.
    spec fn spec_transform(self, m: Matrix4) -> Self;

    /// Inputs for which the product stays within machine range.
    spec fn transform_ok(self, m: Matrix4) -> bool;

    fn transform(self, transformation: &Matrix4) -> (r: Self)
        requires
            self.transform_ok(*transformation),
        ensures
            r == self.spec_transform(*transformation),
    ;

    fn translate(self, x: i64, y: i64, z: i64) -> (r: TransformationBuilder<Self>)
        ensures
            r.transformation == spec_translation(x, y, z),
            r.x == self,
    {
        TransformationBuilder { transformation: translation(x, y, z), x: self }
    }

    fn scale(self, x: i64, y: i64, z: i64) -> (r: TransformationBuilder<Self>)
        ensures
            r.transformation == spec_scaling(x, y, z),
            r.x == self,
    {
        TransformationBuilder { transformation: scaling(x, y, z), x: self }
    }

    fn rotate_x(self, sin_r: i64, cos_r: i64) -> (r: TransformationBuilder<Self>)
        requires
            within(sin_r as int, SCALE as int),
            within(cos_r as int, SCALE as int),
        ensures
            r.transformation == spec_rotation_x(sin_r, cos_r),
            r.x == self,
    {
        TransformationBuilder { transformation: rotation_x(sin_r, cos_r), x: self }
    }

    fn rotate_y(self, sin_r: i64, cos_r: i64) -> (r: TransformationBuilder<Self>)
        requires
            within(sin_r as int, SCALE as int),
            within(cos_r as int, SCALE as int),
        ensures
            r.transformation == spec_rotation_y(sin_r, cos_r),
            r.x == self,
    {
        TransformationBuilder { transformation: rotation_y(sin_r, cos_r), x: self }
    }

    fn rotate_z(self, sin_r: i64, cos_r: i64) -> (r: TransformationBuilder<Self>)
        requires
            within(sin_r as int, SCALE as int),
            within(cos_r as int, SCALE as int),
        ensures
            r.transformation == spec_rotation_z(sin_r, cos_r),
            r.x == self,
    {
        TransformationBuilder { transformation: rotation_z(sin_r, cos_r), x: self }
    }

    fn shear(self, xy: i64, xz: i64, yx: i64, yz: i64, zx: i64, zy: i64) -> (r:
        TransformationBuilder<Self>)
        ensures
            r.transformation == spec_shearing(xy, xz, yx, yz, zx, zy),
            r.x == self,
    {
        TransformationBuilder { transformation: shearing(xy, xz, yx, yz, zx, zy), x: self }
    }
}

/// Accumulates a chain of transforms; the terminal `transform` call
/// applies the accumulated matrix to the carried target.
pub struct TransformationBuilder<T> {
    pub transformation: Matrix4,
    pub x: T,
}

impl<T: Transform> TransformationBuilder<T> {
    pub fn transform(self) -> (r: T)
        requires
            self.x.transform_ok(self.transformation),
        ensures
            r == self.x.spec_transform(self.transformation),
    {
        self.x.transform(&self.transformation)
    }

    pub fn translate(self, x: i64, y: i64, z: i64) -> (r: Self)
        requires
            within(x as int, MUL_MAX as int),
            within(y as int, MUL_MAX as int),
            within(z as int, MUL_MAX as int),
            spec_entries_within4(self.transformation, MUL_MAX as int),
        ensures
            r.transformation == spec_matmul(spec_translation(x, y, z), self.transformation),
            r.x == self.x,
    {
        let t = translation(x, y, z);
        TransformationBuilder { transformation: t.multiply(&self.transformation), x: self.x }
    }

    pub fn scale(self, x: i64, y: i64, z: i64) -> (r: Self)
        requires
            within(x as int, MUL_MAX as int),
            within(y as int, MUL_MAX as int),
            within(z as int, MUL_MAX as int),
            spec_entries_within4(self.transformation, MUL_MAX as int),
        ensures
            r.transformation == spec_matmul(spec_scaling(x, y, z), self.transformation),
            r.x == self.x,
    {
        let t = scaling(x, y, z);
        TransformationBuilder { transformation: t.multiply(&self.transformation), x: self.x }
    }

    pub fn rotate_x(self, sin_r: i64, cos_r: i64) -> (r: Self)
        requires
            within(sin_r as int, SCALE as int),
            within(cos_r as int, SCALE as int),
            spec_entries_within4(self.transformation, MUL_MAX as int),
        ensures
            r.transformation == spec_matmul(spec_rotation_x(sin_r, cos_r), self.transformation),
            r.x == self.x,
    {
        let t = rotation_x(sin_r, cos_r);
        TransformationBuilder { transformation: t.multiply(&self.transformation), x: self.x }
    }

    pub fn rotate_y(self, sin_r: i64, cos_r: i64) -> (r: Self)
        requires
            within(sin_r as int, SCALE as int),
            within(cos_r as int, SCALE as int),
            spec_entries_within4(self.transformation, MUL_MAX as int),
        ensures
            r.transformation == spec_matmul(spec_rotation_y(sin_r, cos_r), self.transformation),
            r.x == self.x,
    {
        let t = rotation_y(sin_r, cos_r);
        TransformationBuilder { transformation: t.multiply(&self.transformation), x: self.x }
    }

    pub fn rotate_z(self, sin_r: i64, cos_r: i64) -> (r: Self)
        requires
            within(sin_r as int, SCALE as int),
            within(cos_r as int, SCALE as int),
            spec_entries_within4(self.transformation, MUL_MAX as int),
        ensures
            r.transformation == spec_matmul(spec_rotation_z(sin_r, cos_r), self.transformation),
            r.x == self.x,
    {
        let t = rotation_z(sin_r, cos_r);
        TransformationBuilder { transformation: t.multiply(&self.transformation), x: self.x }
    }

    pub fn shear(self, xy: i64, xz: i64, yx: i64, yz: i64, zx: i64, zy: i64) -> (r: Self)
        requires
            within(xy as int, MUL_MAX as int),
            within(xz as int, MUL_MAX as int),
            within(yx as int, MUL_MAX as int),
            within(yz as int, MUL_MAX as int),
            within(zx as int, MUL_MAX as int),
            within(zy as int, MUL_MAX as int),
            spec_entries_within4(self.transformation, MUL_MAX as int),
        ensures
            r.transformation == spec_matmul(
                spec_shearing(xy, xz, yx, yz, zx, zy),
                self.transformation,
            ),
            r.x == self.x,
    {
        let t = shearing(xy, xz, yx, yz, zx, zy);
        TransformationBuilder { transformation: t.multiply(&self.transformation), x: self.x }
    }
}

} // verus!
