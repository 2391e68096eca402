use vstd::prelude::*;

verus! {

/// The five kinds of shape, without their measures.
#[derive(Clone, Copy, Debug, PartialEq, Eq, Structural)]
pub enum ShapeKind {
    Square,
    Rectangle,
    Circle,
    Cube,
    Sphere,
}

impl ShapeKind {
    /// A solid is a shape with a volume.
    pub open spec fn spec_is_solid(self) -> bool {
        self is Cube || self is Sphere
    }

    /// A round shape is one with a radius.
    pub open spec fn spec_has_radius(self) -> bool {
        self is Circle || self is Sphere
    }

    /// The noun that names the kind in a report.
    pub open spec fn spec_name(self) -> Seq<char> {
        match self {
            ShapeKind::Square => "square"@,
            ShapeKind::Rectangle => "rectangle"@,
            ShapeKind::Circle => "circle"@,
            ShapeKind::Cube => "cube"@,
            ShapeKind::Sphere => "sphere"@,
        }
    }

    pub fn name(&self) -> (r: &'static str)
        ensures
            r@ == self.spec_name(),
    {
        match self {
            ShapeKind::Square => "square",
            ShapeKind::Rectangle => "rectangle",
            ShapeKind::Circle => "circle",
            ShapeKind::Cube => "cube",
            ShapeKind::Sphere => "sphere",
        }
    }

    pub fn is_solid(&self) -> (r: bool)
        ensures
            r == self.spec_is_solid(),
    {
        match self {
            ShapeKind::Cube | ShapeKind::Sphere => true,
            _ => false,
        }
    }

    pub fn has_radius(&self) -> (r: bool)
        ensures
            r == self.spec_has_radius(),
    {
        match self {
            ShapeKind::Circle | ShapeKind::Sphere => true,
            _ => false,
        }
    }
}

/// Why an operation was refused.
#[derive(Clone, Copy, Debug, PartialEq, Eq, Structural)]
pub enum ShapeError {
    /// A volume was asked of a flat shape.
    NotVolumetric,
    /// A radius change was asked of a shape without a radius.
    NoRadius,
}

impl ShapeError {
    pub open spec fn spec_message(self) -> Seq<char> {
        match self {
            ShapeError::NotVolumetric => "Not a 3D shape"@,
            ShapeError::NoRadius => "Not a shape with radius"@,
        }
    }

    /// A short human-readable account of the error.
    pub fn message(&self) -> (r: &'static str)
        ensures
            r@ == self.spec_message(),
    {
        match self {
            ShapeError::NotVolumetric => "Not a 3D shape",
            ShapeError::NoRadius => "Not a shape with radius",
        }
    }
}

/// What a decrease of the radius stored.
#[derive(Clone, Copy, Debug, PartialEq, Eq, Structural)]
pub enum RadiusOutcome {
    /// The decreased radius was stored as it was.
    Applied,
    /// The decreased radius would have been negative; zero was stored instead.
    Clamped,
}

/// A shape, with a measure of type `D` for each of its dimensions.
///
/// The variant of a shape never changes: the operations below only ever
/// replace the radius of a round shape.
#[derive(Clone, Copy, Debug, PartialEq)]
pub enum Shape<D> {
    Square { side: D },
    Rectangle { length: D, width: D },
    Circle { radius: D },
    Cube { width: D, height: D, depth: D },
    Sphere { radius: D },
}

/// The measures of a solid, in the form its volume is computed from.
#[derive(Clone, Copy, Debug, PartialEq)]
pub enum Solid<D> {
    /// A box: width times height times depth.
    Cuboid { width: D, height: D, depth: D },
    /// A ball: four thirds of pi times the cube of the radius.
    Ball { radius: D },
}

impl<D> Shape<D> {
    pub open spec fn spec_kind(&self) -> ShapeKind {
        match self {
            Shape::Square { .. } => ShapeKind::Square,
            Shape::Rectangle { .. } => ShapeKind::Rectangle,
            Shape::Circle { .. } => ShapeKind::Circle,
            Shape::Cube { .. } => ShapeKind::Cube,
            Shape::Sphere { .. } => ShapeKind::Sphere,
        }
    }

    /// The radius of a round shape; `None` for the others.
    pub open spec fn spec_radius(&self) -> Option<D> {
        match self {
            Shape::Circle { radius } => Some(*radius),
            Shape::Sphere { radius } => Some(*radius),
            _ => None,
        }
    }

    /// The same shape with its radius replaced by `r`; a shape without a
    /// radius is returned as it is.
    pub open spec fn with_radius(self, r: D) -> Shape<D> {
        match self {
            Shape::Circle { .. } => Shape::Circle { radius: r },
            Shape::Sphere { .. } => Shape::Sphere { radius: r },
            _ => self,
        }
    }

    /// The measures of a solid, or the error that a flat shape has no volume.
    pub open spec fn spec_solid(self) -> Result<Solid<D>, ShapeError> {
        match self {
            Shape::Cube { width, height, depth } => Ok(Solid::Cuboid { width, height, depth }),
            Shape::Sphere { radius } => Ok(Solid::Ball { radius }),
            _ => Err(ShapeError::NotVolumetric),
        }
    }

    pub fn kind(&self) -> (k: ShapeKind)
        ensures
            k == self.spec_kind(),
    {
        match self {
            Shape::Square { .. } => ShapeKind::Square,
            Shape::Rectangle { .. } => ShapeKind::Rectangle,
            Shape::Circle { .. } => ShapeKind::Circle,
            Shape::Cube { .. } => ShapeKind::Cube,
            Shape::Sphere { .. } => ShapeKind::Sphere,
        }
    }

    pub fn radius(&self) -> (r: Option<&D>)
        ensures
            match r {
                Some(x) => self.spec_radius() == Some(*x),
                None => self.spec_radius() is None,
            },
    {
        match self {
            Shape::Circle { radius } => Some(radius),
            Shape::Sphere { radius } => Some(radius),
            _ => None,
        }
    }

    /// Takes the measures that the volume of the shape is computed from;
    /// fails with `NotVolumetric` on a flat shape.
    pub fn solid(self) -> (r: Result<Solid<D>, ShapeError>)
        ensures
            r == self.spec_solid(),
            r is Ok <==> self.spec_kind().spec_is_solid(),
    {
        match self {
            Shape::Cube { width, height, depth } => Ok(Solid::Cuboid { width, height, depth }),
            Shape::Sphere { radius } => Ok(Solid::Ball { radius }),
            _ => Err(ShapeError::NotVolumetric),
        }
    }

    /// Stores `value` as the radius of a round shape. A shape without a radius
    /// is left as it is, and the call fails with `NoRadius`.
    pub fn set_radius(&mut self, value: D) -> (r: Result<(), ShapeError>)
        ensures
            old(self).spec_kind().spec_has_radius() ==> r == Ok::<(), ShapeError>(())
                && *final(self) == old(self).with_radius(value),
            !old(self).spec_kind().spec_has_radius() ==> r == Err::<(), ShapeError>(
                ShapeError::NoRadius,
            ) && *final(self) == *old(self),
            final(self).spec_kind() == old(self).spec_kind(),
            r is Ok ==> final(self).spec_radius() == Some(value),
    {
        match self {
            Shape::Circle { radius } => {
                *radius = value;
                Ok(())
            },
            Shape::Sphere { radius } => {
                *radius = value;
                Ok(())
            },
            _ => Err(ShapeError::NoRadius),
        }
    }

    /// Stores the radius that a decrease produced. `candidate` is the old
    /// radius less the decrease, and `below_zero` tells whether it is negative:
    /// then `zero` is stored in its place and the outcome is `Clamped`, else
    /// `candidate` is stored and the outcome is `Applied`. A shape without a
    /// radius is left as it is, and the call fails with `NoRadius`.
    pub fn settle_radius(&mut self, candidate: D, below_zero: bool, zero: D) -> (r: Result<
        RadiusOutcome,
        ShapeError,
    >)
        ensures
            old(self).spec_kind().spec_has_radius() ==> {
                &&& r == Ok::<RadiusOutcome, ShapeError>(
                    if below_zero {
                        RadiusOutcome::Clamped
                    } else {
                        RadiusOutcome::Applied
                    },
                )
                &&& *final(self) == old(self).with_radius(
                    if below_zero {
                        zero
                    } else {
                        candidate
                    },
                )
            },
            !old(self).spec_kind().spec_has_radius() ==> r == Err::<RadiusOutcome, ShapeError>(
                ShapeError::NoRadius,
            ) && *final(self) == *old(self),
            final(self).spec_kind() == old(self).spec_kind(),
            r is Ok ==> final(self).spec_radius() == Some(
                if below_zero {
                    zero
                } else {
                    candidate
                },
            ),
    {
        if !self.kind().has_radius() {
            return Err(ShapeError::NoRadius);
        }
        if below_zero {
            let _ = self.set_radius(zero);
            Ok(RadiusOutcome::Clamped)
        } else {
            let _ = self.set_radius(candidate);
            Ok(RadiusOutcome::Applied)
        }
    }
}

} // verus!
