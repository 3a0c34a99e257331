//! The checks a deck's source and detector blocks go through before their
//! numbers are converted: which source geometry, which settings it requires,
//! where the beam direction comes from, and where the detector is described.

use vstd::prelude::*;
use crate::text::{str_eq, to_owned_string};

verus! {

/// Geometry of a particle source.
#[derive(Debug, Clone, Copy, PartialEq, Eq, Structural)]
pub enum SourceGeometryKind {
    ParallelBeam,
    Pencil,
    Point,
    Disk,
}

/// Where the beam direction of a source comes from.
#[derive(Debug, Clone, Copy, PartialEq, Eq)]
pub enum DirectionFrom {
    /// The given direction vector, normalised.
    Vector,
    /// From the source position towards the given aim point.
    AimAt,
    /// The default, +x.
    Default,
}

/// Which of the optional source settings a deck gives.
#[derive(Debug, Clone, Copy, PartialEq, Eq)]
pub struct SourcePresence {
    pub position: bool,
    pub center: bool,
    pub direction: bool,
    pub aim_at: bool,
}

/// The checked shape of a source.
#[derive(Debug, Clone, Copy, PartialEq, Eq)]
pub struct SourcePlan {
    pub kind: SourceGeometryKind,
    pub n_particles: u32,
    pub direction: DirectionFrom,
}

/// Where the detector of a legacy configuration is described.
#[derive(Debug, Clone, Copy, PartialEq, Eq)]
pub enum DetectorFrom {
    /// A top-level detector block.
    Block,
    /// A distance given inside the parallel-beam source block.
    SourceDistance,
}

/// Why a source or detector description was refused.
#[derive(Debug, Clone, PartialEq, Eq)]
pub enum ConfigError {
    /// More particles than fit in a `u32`.
    TooManyParticles(u64),
    /// A source type name that is not `parallel`, `pencil`, `point` or `disk`.
    UnknownSourceType(String),
    /// A pencil or point source without a position.
    MissingPosition(SourceGeometryKind),
    /// A disk source without a center.
    MissingCenter,
    /// Both a direction and an aim point were given.
    DirectionAndAim(SourceGeometryKind),
    /// A pencil source with neither a direction nor an aim point.
    NoDirection(SourceGeometryKind),
    /// No detector block and no legacy detector distance.
    NoDetector,
}

/// Source geometry a deck's `type` names.
pub open spec fn source_kind_of(t: Seq<char>) -> Option<SourceGeometryKind> {
    if t == "parallel"@ {
        Some(SourceGeometryKind::ParallelBeam)
    } else if t == "pencil"@ {
        Some(SourceGeometryKind::Pencil)
    } else if t == "point"@ {
        Some(SourceGeometryKind::Point)
    } else if t == "disk"@ {
        Some(SourceGeometryKind::Disk)
    } else {
        None
    }
}

/// The direction rule of a non-parallel source: a vector or an aim point, not
/// both; with neither, the default, except that a pencil needs one.
pub open spec fn direction_rule(kind: SourceGeometryKind, direction: bool, aim_at: bool) -> Result<
    DirectionFrom,
    ConfigError,
> {
    if direction && aim_at {
        Err(ConfigError::DirectionAndAim(kind))
    } else if direction {
        Ok(DirectionFrom::Vector)
    } else if aim_at {
        Ok(DirectionFrom::AimAt)
    } else if kind == SourceGeometryKind::Pencil {
        Err(ConfigError::NoDirection(kind))
    } else {
        Ok(DirectionFrom::Default)
    }
}

/// The checks of a source of a known geometry, in order: particle count,
/// required position or center, direction. A parallel beam takes its
/// direction vector if given and ignores an aim point.
pub open spec fn source_plan_of(kind: SourceGeometryKind, n_particles: u64, p: SourcePresence) -> Result<
    SourcePlan,
    ConfigError,
> {
    if n_particles > u32::MAX {
        Err(ConfigError::TooManyParticles(n_particles))
    } else if (kind == SourceGeometryKind::Pencil || kind == SourceGeometryKind::Point)
        && !p.position {
        Err(ConfigError::MissingPosition(kind))
    } else if kind == SourceGeometryKind::Disk && !p.center {
        Err(ConfigError::MissingCenter)
    } else if kind == SourceGeometryKind::ParallelBeam {
        Ok(
            SourcePlan {
                kind,
                n_particles: n_particles as u32,
                direction: if p.direction {
                    DirectionFrom::Vector
                } else {
                    DirectionFrom::Default
                },
            },
        )
    } else {
        match direction_rule(kind, p.direction, p.aim_at) {
            Ok(d) => Ok(SourcePlan { kind, n_particles: n_particles as u32, direction: d }),
            Err(e) => Err(e),
        }
    }
}

/// Checks a source of a known geometry.
pub fn plan_source(kind: SourceGeometryKind, n_particles: u64, p: SourcePresence) -> (r: Result<
    SourcePlan,
    ConfigError,
>)
    ensures
        r == source_plan_of(kind, n_particles, p),
{
    if n_particles > u32::MAX as u64 {
        return Err(ConfigError::TooManyParticles(n_particles));
    }
    let n = n_particles as u32;
    match kind {
        SourceGeometryKind::Pencil | SourceGeometryKind::Point => {
            if !p.position {
                return Err(ConfigError::MissingPosition(kind));
            }
        },
        SourceGeometryKind::Disk => {
            if !p.center {
                return Err(ConfigError::MissingCenter);
            }
        },
        SourceGeometryKind::ParallelBeam => {
            let direction = if p.direction {
                DirectionFrom::Vector
            } else {
                DirectionFrom::Default
            };
            return Ok(SourcePlan { kind, n_particles: n, direction });
        },
    }
    let direction = if p.direction && p.aim_at {
        return Err(ConfigError::DirectionAndAim(kind));
    } else if p.direction {
        DirectionFrom::Vector
    } else if p.aim_at {
        DirectionFrom::AimAt
    } else if kind == SourceGeometryKind::Pencil {
        return Err(ConfigError::NoDirection(kind));
    } else {
        DirectionFrom::Default
    };
    Ok(SourcePlan { kind, n_particles: n, direction })
}

/// Checks the source block of a TOML deck: the particle count first, then the
/// `type` name, then the settings that geometry requires.
pub fn plan_deck_source(source_type: &str, n_particles: u64, p: SourcePresence) -> (r: Result<
    SourcePlan,
    ConfigError,
>)
    ensures
        n_particles > u32::MAX ==> r == Err::<SourcePlan, ConfigError>(
            ConfigError::TooManyParticles(n_particles),
        ),
        n_particles <= u32::MAX ==> match source_kind_of(source_type@) {
            None => r matches Err(ConfigError::UnknownSourceType(t)) && t@ == source_type@,
            Some(k) => r == source_plan_of(k, n_particles, p),
        },
{
    if n_particles > u32::MAX as u64 {
        return Err(ConfigError::TooManyParticles(n_particles));
    }
    let kind = if str_eq(source_type, "parallel") {
        SourceGeometryKind::ParallelBeam
    } else if str_eq(source_type, "pencil") {
        SourceGeometryKind::Pencil
    } else if str_eq(source_type, "point") {
        SourceGeometryKind::Point
    } else if str_eq(source_type, "disk") {
        SourceGeometryKind::Disk
    } else {
        return Err(ConfigError::UnknownSourceType(to_owned_string(source_type)));
    };
    plan_source(kind, n_particles, p)
}

/// Where a legacy configuration's detector is described: its detector block
/// if it has one, else a detector distance in a parallel-beam source block.
pub open spec fn legacy_detector_of(kind: SourceGeometryKind, has_block: bool, has_distance: bool) -> Result<
    DetectorFrom,
    ConfigError,
> {
    if has_block {
        Ok(DetectorFrom::Block)
    } else if kind == SourceGeometryKind::ParallelBeam && has_distance {
        Ok(DetectorFrom::SourceDistance)
    } else {
        Err(ConfigError::NoDetector)
    }
}

/// Checks a legacy (JSON) configuration: its source first, then where its
/// detector is described. A disk's `normal` counts as its direction.
pub fn plan_legacy_config(
    kind: SourceGeometryKind,
    n_particles: u64,
    p: SourcePresence,
    has_normal: bool,
    has_detector_block: bool,
    has_detector_distance: bool,
) -> (r: Result<(SourcePlan, DetectorFrom), ConfigError>)
    ensures
        ({
            let q = if kind == SourceGeometryKind::Disk {
                SourcePresence { direction: p.direction || has_normal, ..p }
            } else {
                p
            };
            match source_plan_of(kind, n_particles, q) {
                Err(e) => r == Err::<(SourcePlan, DetectorFrom), ConfigError>(e),
                Ok(s) => match legacy_detector_of(kind, has_detector_block, has_detector_distance) {
                    Err(e) => r == Err::<(SourcePlan, DetectorFrom), ConfigError>(e),
                    Ok(d) => r == Ok::<(SourcePlan, DetectorFrom), ConfigError>((s, d)),
                },
            }
        }),
{
    let q = match kind {
        SourceGeometryKind::Disk => SourcePresence {
            position: p.position,
            center: p.center,
            direction: p.direction || has_normal,
            aim_at: p.aim_at,
        },
        _ => p,
    };
    let s = match plan_source(kind, n_particles, q) {
        Ok(s) => s,
        Err(e) => {
            return Err(e);
        },
    };
    let d = if has_detector_block {
        DetectorFrom::Block
    } else if kind == SourceGeometryKind::ParallelBeam && has_detector_distance {
        DetectorFrom::SourceDistance
    } else {
        return Err(ConfigError::NoDetector);
    };
    Ok((s, d))
}

/// How a source geometry is named in a deck preview.
pub open spec fn geometry_label_of(kind: SourceGeometryKind) -> Seq<char> {
    match kind {
        SourceGeometryKind::ParallelBeam => "parallel beam"@,
        SourceGeometryKind::Pencil => "pencil beam"@,
        SourceGeometryKind::Point => "point source"@,
        SourceGeometryKind::Disk => "disk source"@,
    }
}

/// The name of a source geometry in a deck preview.
pub fn geometry_label(kind: SourceGeometryKind) -> (r: &'static str)
    ensures
        r@ == geometry_label_of(kind),
{
    match kind {
        SourceGeometryKind::ParallelBeam => "parallel beam",
        SourceGeometryKind::Pencil => "pencil beam",
        SourceGeometryKind::Point => "point source",
        SourceGeometryKind::Disk => "disk source",
    }
}

/// Law: a source of known geometry is accepted exactly when its particle
/// count fits in a `u32`, a pencil or point source has a position, a disk has
/// a center, a source other than a parallel beam is not given both a
/// direction and an aim point, and a pencil has one of them. An accepted plan
/// keeps the geometry and the count, and takes its direction from the given
/// vector whenever one is given (whatever the geometry), from the aim point
/// when only that is given to a source other than a parallel beam, and is
/// the default +x only when neither applies.
pub proof fn law_source_plan_direction(kind: SourceGeometryKind, n_particles: u64, p: SourcePresence)
    ensures
        source_plan_of(kind, n_particles, p) is Ok <==> {
            &&& n_particles <= u32::MAX
            &&& (kind == SourceGeometryKind::Pencil || kind == SourceGeometryKind::Point)
                ==> p.position
            &&& kind == SourceGeometryKind::Disk ==> p.center
            &&& kind != SourceGeometryKind::ParallelBeam ==> !(p.direction && p.aim_at)
            &&& kind == SourceGeometryKind::Pencil ==> (p.direction || p.aim_at)
        },
        source_plan_of(kind, n_particles, p) matches Ok(plan) ==> {
            &&& plan.kind == kind
            &&& plan.n_particles == n_particles
            &&& (plan.direction == DirectionFrom::Vector <==> p.direction)
            &&& (plan.direction == DirectionFrom::AimAt <==> (!p.direction && p.aim_at && kind
                != SourceGeometryKind::ParallelBeam))
            &&& (plan.direction == DirectionFrom::Default <==> (!p.direction && (!p.aim_at || kind
                == SourceGeometryKind::ParallelBeam)))
        },
{
}

/// The `type` name a deck gives each source geometry.
pub open spec fn source_type_name(kind: SourceGeometryKind) -> Seq<char> {
    match kind {
        SourceGeometryKind::ParallelBeam => "parallel"@,
        SourceGeometryKind::Pencil => "pencil"@,
        SourceGeometryKind::Point => "point"@,
        SourceGeometryKind::Disk => "disk"@,
    }
}

/// Law: a deck's source `type` names a geometry exactly when it is that
/// geometry's own name (`parallel`, `pencil`, `point`, `disk`), so no two
/// names give the same geometry.
pub proof fn law_source_type_names(t: Seq<char>, kind: SourceGeometryKind)
    ensures
        source_kind_of(t) == Some(kind) <==> t == source_type_name(kind),
{
    reveal_strlit("parallel");
    reveal_strlit("pencil");
    reveal_strlit("point");
    reveal_strlit("disk");
    assert("pencil"@.len() != "parallel"@.len());
    assert("point"@.len() != "parallel"@.len());
    assert("point"@.len() != "pencil"@.len());
    assert("disk"@.len() != "parallel"@.len());
    assert("disk"@.len() != "pencil"@.len());
    assert("disk"@.len() != "point"@.len());
}

/// Law: a legacy configuration's detector block always wins; a detector
/// distance inside the source block is used only without one, and only for a
/// parallel beam; with neither the configuration is refused.
pub proof fn law_legacy_detector(kind: SourceGeometryKind, has_block: bool, has_distance: bool)
    ensures
        legacy_detector_of(kind, has_block, has_distance) == Ok::<DetectorFrom, ConfigError>(
            DetectorFrom::Block,
        ) <==> has_block,
        legacy_detector_of(kind, has_block, has_distance) == Ok::<DetectorFrom, ConfigError>(
            DetectorFrom::SourceDistance,
        ) <==> (!has_block && has_distance && kind == SourceGeometryKind::ParallelBeam),
        legacy_detector_of(kind, has_block, has_distance) is Err <==> (!has_block && !(has_distance
            && kind == SourceGeometryKind::ParallelBeam)),
{
}

} // verus!
