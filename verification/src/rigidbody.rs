//! The rigid body node and its builder.
//!
//! A body that does not move for some time goes to sleep and is left out of the
//! simulation until something wakes it. Setting a property does not wake a
//! sleeping body: ask for that with [`RigidBody::wake_up`], or forbid sleeping
//! with [`RigidBody::set_can_sleep`].

use crate::action::{ActionQueue, ApplyAction};
use crate::handle::{invalid_handle, NativeHandle};
use crate::math::{Real, Vector2, ONE_BITS, ZERO_BITS};
use crate::variable::{TemplateVariable, VariableState};
use vstd::prelude::*;

verus! {

/// How the simulation treats a body.
#[derive(Clone, Copy, Debug, PartialEq, Eq, Structural)]
pub enum RigidBodyType {
    /// Forces and contacts move the body.
    Dynamic,
    /// Nothing moves the body.
    Static,
    /// Only its owner moves the body, by setting its position.
    KinematicPositionBased,
    /// Only its owner moves the body, by setting its velocity.
    KinematicVelocityBased,
}

impl Default for RigidBodyType {
    /// A body is dynamic unless told otherwise.
    fn default() -> (body_type: Self)
        ensures
            body_type == RigidBodyType::Dynamic,
    {
        RigidBodyType::Dynamic
    }
}

/// The properties that changed since the simulation last looked: for each
/// property its value if it waits for synchronization, and nothing otherwise.
#[derive(Clone, Copy, Debug, PartialEq, Eq, Structural)]
pub struct ModelChanges {
    pub lin_vel: Option<Vector2>,
    pub ang_vel: Option<Real>,
    pub lin_damping: Option<Real>,
    pub ang_damping: Option<Real>,
    pub body_type: Option<RigidBodyType>,
    pub mass: Option<Real>,
    pub rotation_locked: Option<bool>,
    pub translation_locked: Option<bool>,
    pub ccd_enabled: Option<bool>,
    pub can_sleep: Option<bool>,
}

/// What a [`RigidBody`] holds, as a mathematical value.
pub ghost struct RigidBodyView {
    pub lin_vel: VariableState<Vector2>,
    pub ang_vel: VariableState<Real>,
    pub lin_damping: VariableState<Real>,
    pub ang_damping: VariableState<Real>,
    pub body_type: VariableState<RigidBodyType>,
    pub mass: VariableState<Real>,
    pub rotation_locked: VariableState<bool>,
    pub translation_locked: VariableState<bool>,
    pub ccd_enabled: VariableState<bool>,
    pub can_sleep: VariableState<bool>,
    /// Whether the body sleeps, as the simulation last reported it.
    pub sleeping: bool,
    /// The handle of the backend's body.
    pub native: NativeHandle,
    /// The commands that wait for the next step, oldest first.
    pub actions: Seq<ApplyAction>,
}

impl RigidBodyView {
    /// The body after it resolved its inheritance against a parent body:
    /// every property resolves against the parent's property of the same name,
    /// and nothing else changes.
    pub open spec fn inherit(self, parent: RigidBodyView) -> RigidBodyView {
        RigidBodyView {
            lin_vel: self.lin_vel.inherit(parent.lin_vel),
            ang_vel: self.ang_vel.inherit(parent.ang_vel),
            lin_damping: self.lin_damping.inherit(parent.lin_damping),
            ang_damping: self.ang_damping.inherit(parent.ang_damping),
            body_type: self.body_type.inherit(parent.body_type),
            mass: self.mass.inherit(parent.mass),
            rotation_locked: self.rotation_locked.inherit(parent.rotation_locked),
            translation_locked: self.translation_locked.inherit(parent.translation_locked),
            ccd_enabled: self.ccd_enabled.inherit(parent.ccd_enabled),
            can_sleep: self.can_sleep.inherit(parent.can_sleep),
            ..self
        }
    }

    /// Whether any property waits for synchronization.
    pub open spec fn need_sync(self) -> bool {
        ||| self.lin_vel.need_sync
        ||| self.ang_vel.need_sync
        ||| self.lin_damping.need_sync
        ||| self.ang_damping.need_sync
        ||| self.body_type.need_sync
        ||| self.mass.need_sync
        ||| self.rotation_locked.need_sync
        ||| self.translation_locked.need_sync
        ||| self.ccd_enabled.need_sync
        ||| self.can_sleep.need_sync
    }

    /// The body after a synchronization: no property waits any more.
    pub open spec fn synced(self) -> RigidBodyView {
        RigidBodyView {
            lin_vel: self.lin_vel.synced(),
            ang_vel: self.ang_vel.synced(),
            lin_damping: self.lin_damping.synced(),
            ang_damping: self.ang_damping.synced(),
            body_type: self.body_type.synced(),
            mass: self.mass.synced(),
            rotation_locked: self.rotation_locked.synced(),
            translation_locked: self.translation_locked.synced(),
            ccd_enabled: self.ccd_enabled.synced(),
            can_sleep: self.can_sleep.synced(),
            ..self
        }
    }

    /// What a synchronization hands out: the value of each property that
    /// waits for it.
    pub open spec fn changes(self) -> ModelChanges {
        ModelChanges {
            lin_vel: self.lin_vel.pending(),
            ang_vel: self.ang_vel.pending(),
            lin_damping: self.lin_damping.pending(),
            ang_damping: self.ang_damping.pending(),
            body_type: self.body_type.pending(),
            mass: self.mass.pending(),
            rotation_locked: self.rotation_locked.pending(),
            translation_locked: self.translation_locked.pending(),
            ccd_enabled: self.ccd_enabled.pending(),
            can_sleep: self.can_sleep.pending(),
        }
    }

    /// A copy for a new node: the properties and the sleeping flag as they are,
    /// no backend body and no pending command.
    pub open spec fn raw_copy(self) -> RigidBodyView {
        RigidBodyView { native: invalid_handle(), actions: Seq::empty(), ..self }
    }

    /// The body that `Default` makes: at rest, undamped, dynamic, of mass `1.0`,
    /// nothing locked, no continuous collision detection, free to sleep, awake,
    /// unknown to the backend and with nothing pending.
    pub open spec fn initial() -> RigidBodyView {
        RigidBodyView {
            lin_vel: VariableState::fresh(
                Vector2 { x: Real { bits: ZERO_BITS }, y: Real { bits: ZERO_BITS } },
            ),
            ang_vel: VariableState::fresh(Real { bits: ZERO_BITS }),
            lin_damping: VariableState::fresh(Real { bits: ZERO_BITS }),
            ang_damping: VariableState::fresh(Real { bits: ZERO_BITS }),
            body_type: VariableState::fresh(RigidBodyType::Dynamic),
            mass: VariableState::fresh(Real { bits: ONE_BITS }),
            rotation_locked: VariableState::fresh(false),
            translation_locked: VariableState::fresh(false),
            ccd_enabled: VariableState::fresh(false),
            can_sleep: VariableState::fresh(true),
            sleeping: false,
            native: invalid_handle(),
            actions: Seq::empty(),
        }
    }
}

/// A physics entity that answers for the dynamics and kinematics of a solid.
///
/// The node holds what its owner wants of the body. The simulation reads the
/// properties that changed and the pending commands once per step, and writes
/// back whether the body sleeps.
#[derive(Debug)]
pub struct RigidBody {
    lin_vel: TemplateVariable<Vector2>,
    ang_vel: TemplateVariable<Real>,
    lin_damping: TemplateVariable<Real>,
    ang_damping: TemplateVariable<Real>,
    body_type: TemplateVariable<RigidBodyType>,
    mass: TemplateVariable<Real>,
    rotation_locked: TemplateVariable<bool>,
    translation_locked: TemplateVariable<bool>,
    ccd_enabled: TemplateVariable<bool>,
    can_sleep: TemplateVariable<bool>,
    sleeping: bool,
    native: NativeHandle,
    actions: ActionQueue,
}

impl View for RigidBody {
    type V = RigidBodyView;

    closed spec fn view(&self) -> RigidBodyView {
        RigidBodyView {
            lin_vel: self.lin_vel@,
            ang_vel: self.ang_vel@,
            lin_damping: self.lin_damping@,
            ang_damping: self.ang_damping@,
            body_type: self.body_type@,
            mass: self.mass@,
            rotation_locked: self.rotation_locked@,
            translation_locked: self.translation_locked@,
            ccd_enabled: self.ccd_enabled@,
            can_sleep: self.can_sleep@,
            sleeping: self.sleeping,
            native: self.native,
            actions: self.actions@,
        }
    }
}

/// A node of the scene, as far as a rigid body tells nodes apart.
#[derive(Debug)]
pub enum Node {
    /// A node of any other kind.
    Base,
    /// A 2D rigid body.
    RigidBody2D(RigidBody),
}

impl Default for RigidBody {
    fn default() -> (body: Self)
        ensures
            body@ == RigidBodyView::initial(),
    {
        RigidBody {
            lin_vel: TemplateVariable::new(Vector2::zero()),
            ang_vel: TemplateVariable::new(Real::zero()),
            lin_damping: TemplateVariable::new(Real::zero()),
            ang_damping: TemplateVariable::new(Real::zero()),
            sleeping: false,
            body_type: TemplateVariable::new(RigidBodyType::Dynamic),
            mass: TemplateVariable::new(Real::one()),
            rotation_locked: TemplateVariable::new(false),
            translation_locked: TemplateVariable::new(false),
            ccd_enabled: TemplateVariable::new(false),
            can_sleep: TemplateVariable::new(true),
            native: NativeHandle::invalid(),
            actions: ActionQueue::new(),
        }
    }
}

impl RigidBody {
    /// Copies the node for a new one. The copy has every property with its
    /// markers and the sleeping flag of this node, but no backend body and no
    /// pending command: it registers with the simulation on its own.
    pub fn raw_copy(&self) -> (copy: Self)
        ensures
            copy@ == self@.raw_copy(),
    {
        RigidBody {
            lin_vel: self.lin_vel.clone(),
            ang_vel: self.ang_vel.clone(),
            lin_damping: self.lin_damping.clone(),
            ang_damping: self.ang_damping.clone(),
            sleeping: self.sleeping,
            body_type: self.body_type.clone(),
            mass: self.mass.clone(),
            rotation_locked: self.rotation_locked.clone(),
            translation_locked: self.translation_locked.clone(),
            ccd_enabled: self.ccd_enabled.clone(),
            can_sleep: self.can_sleep.clone(),
            native: NativeHandle::invalid(),
            actions: ActionQueue::new(),
        }
    }

    /// Sets the linear velocity. The simulation takes it over at its next step.
    /// A sleeping body stays asleep.
    pub fn set_lin_vel(&mut self, lin_vel: Vector2)
        ensures
            final(self)@ == (RigidBodyView {
                lin_vel: old(self)@.lin_vel.set(lin_vel),
                ..old(self)@
            }),
    {
        self.lin_vel.set(lin_vel);
    }

    /// The linear velocity.
    pub fn lin_vel(&self) -> (lin_vel: Vector2)
        ensures
            lin_vel == self@.lin_vel.value,
    {
        self.lin_vel.get()
    }

    /// Sets the angular velocity. The simulation takes it over at its next step.
    /// A sleeping body stays asleep.
    pub fn set_ang_vel(&mut self, ang_vel: Real)
        ensures
            final(self)@ == (RigidBodyView {
                ang_vel: old(self)@.ang_vel.set(ang_vel),
                ..old(self)@
            }),
    {
        self.ang_vel.set(ang_vel);
    }

    /// The angular velocity.
    pub fn ang_vel(&self) -> (ang_vel: Real)
        ensures
            ang_vel == self@.ang_vel.value,
    {
        self.ang_vel.get()
    }

    /// Sets the additional mass of the body: what it weighs beyond the mass that
    /// the colliders attached to it give it.
    pub fn set_mass(&mut self, mass: Real)
        ensures
            final(self)@ == (RigidBodyView {
                mass: old(self)@.mass.set(mass),
                ..old(self)@
            }),
    {
        self.mass.set(mass);
    }

    /// The additional mass of the body.
    pub fn mass(&self) -> (mass: Real)
        ensures
            mass == self@.mass.value,
    {
        self.mass.get()
    }

    /// Sets the angular damping, which slows the rotation down over time.
    pub fn set_ang_damping(&mut self, damping: Real)
        ensures
            final(self)@ == (RigidBodyView {
                ang_damping: old(self)@.ang_damping.set(damping),
                ..old(self)@
            }),
    {
        self.ang_damping.set(damping);
    }

    /// The angular damping.
    pub fn ang_damping(&self) -> (damping: Real)
        ensures
            damping == self@.ang_damping.value,
    {
        self.ang_damping.get()
    }

    /// Sets the linear damping, which slows the movement down over time.
    pub fn set_lin_damping(&mut self, damping: Real)
        ensures
            final(self)@ == (RigidBodyView {
                lin_damping: old(self)@.lin_damping.set(damping),
                ..old(self)@
            }),
    {
        self.lin_damping.set(damping);
    }

    /// The linear damping.
    pub fn lin_damping(&self) -> (damping: Real)
        ensures
            damping == self@.lin_damping.value,
    {
        self.lin_damping.get()
    }

    /// Locks or frees the rotation of the body.
    pub fn lock_rotations(&mut self, state: bool)
        ensures
            final(self)@ == (RigidBodyView {
                rotation_locked: old(self)@.rotation_locked.set(state),
                ..old(self)@
            }),
    {
        self.rotation_locked.set(state);
    }

    /// Whether the rotation of the body is locked.
    pub fn is_rotation_locked(&self) -> (locked: bool)
        ensures
            locked == self@.rotation_locked.value,
    {
        self.rotation_locked.get()
    }

    /// Locks or frees the translation of the body in world coordinates.
    pub fn lock_translation(&mut self, state: bool)
        ensures
            final(self)@ == (RigidBodyView {
                translation_locked: old(self)@.translation_locked.set(state),
                ..old(self)@
            }),
    {
        self.translation_locked.set(state);
    }

    /// Whether the translation of the body is locked.
    pub fn is_translation_locked(&self) -> (locked: bool)
        ensures
            locked == self@.translation_locked.value,
    {
        self.translation_locked.get()
    }

    /// Sets how the simulation treats the body.
    pub fn set_body_type(&mut self, body_type: RigidBodyType)
        ensures
            final(self)@ == (RigidBodyView {
                body_type: old(self)@.body_type.set(body_type),
                ..old(self)@
            }),
    {
        self.body_type.set(body_type);
    }

    /// How the simulation treats the body.
    pub fn body_type(&self) -> (body_type: RigidBodyType)
        ensures
            body_type == self@.body_type.value,
    {
        self.body_type.get()
    }

    /// Whether the body sleeps, as the simulation last reported it.
    pub fn is_sleeping(&self) -> (sleeping: bool)
        ensures
            sleeping == self@.sleeping,
    {
        self.sleeping
    }

    /// Whether continuous collision detection is on.
    pub fn is_ccd_enabled(&self) -> (enabled: bool)
        ensures
            enabled == self@.ccd_enabled.value,
    {
        self.ccd_enabled.get()
    }

    /// Turns continuous collision detection on or off. It keeps fast bodies
    /// from passing through others.
    pub fn enable_ccd(&mut self, enable: bool)
        ensures
            final(self)@ == (RigidBodyView {
                ccd_enabled: old(self)@.ccd_enabled.set(enable),
                ..old(self)@
            }),
    {
        self.ccd_enabled.set(enable);
    }

    /// Queues a force at the center of mass. Bodies that are not dynamic ignore
    /// it when the simulation gets to it.
    pub fn apply_force(&mut self, force: Vector2)
        ensures
            final(self)@ == (RigidBodyView {
                actions: old(self)@.actions.push(ApplyAction::Force(force)),
                ..old(self)@
            }),
    {
        self.actions.enqueue(ApplyAction::Force(force));
    }

    /// Queues a torque at the center of mass. Bodies that are not dynamic ignore
    /// it when the simulation gets to it.
    pub fn apply_torque(&mut self, torque: Real)
        ensures
            final(self)@ == (RigidBodyView {
                actions: old(self)@.actions.push(ApplyAction::Torque(torque)),
                ..old(self)@
            }),
    {
        self.actions.enqueue(ApplyAction::Torque(torque));
    }

    /// Queues a force at a point given in world coordinates. Bodies that are not
    /// dynamic ignore it when the simulation gets to it.
    pub fn apply_force_at_point(&mut self, force: Vector2, point: Vector2)
        ensures
            final(self)@ == (RigidBodyView {
                actions: old(self)@.actions.push(ApplyAction::ForceAtPoint { force, point }),
                ..old(self)@
            }),
    {
        self.actions.enqueue(ApplyAction::ForceAtPoint { force, point });
    }

    /// Queues an impulse at the center of mass, which changes the linear
    /// velocity. Bodies that are not dynamic ignore it when the simulation gets
    /// to it.
    pub fn apply_impulse(&mut self, impulse: Vector2)
        ensures
            final(self)@ == (RigidBodyView {
                actions: old(self)@.actions.push(ApplyAction::Impulse(impulse)),
                ..old(self)@
            }),
    {
        self.actions.enqueue(ApplyAction::Impulse(impulse));
    }

    /// Queues an angular impulse at the center of mass, which changes the
    /// angular velocity. Bodies that are not dynamic ignore it when the
    /// simulation gets to it.
    pub fn apply_torque_impulse(&mut self, torque_impulse: Real)
        ensures
            final(self)@ == (RigidBodyView {
                actions: old(self)@.actions.push(ApplyAction::TorqueImpulse(torque_impulse)),
                ..old(self)@
            }),
    {
        self.actions.enqueue(ApplyAction::TorqueImpulse(torque_impulse));
    }

    /// Queues an impulse at a point given in world coordinates, which changes
    /// the linear and the angular velocity. Bodies that are not dynamic ignore
    /// it when the simulation gets to it.
    pub fn apply_impulse_at_point(&mut self, impulse: Vector2, point: Vector2)
        ensures
            final(self)@ == (RigidBodyView {
                actions: old(self)@.actions.push(ApplyAction::ImpulseAtPoint { impulse, point }),
                ..old(self)@
            }),
    {
        self.actions.enqueue(ApplyAction::ImpulseAtPoint { impulse, point });
    }

    /// Sets whether the body may sleep. Forbidding it also queues a wake-up, so
    /// that a body that sleeps by now returns to the simulation; allowing it
    /// queues nothing.
    pub fn set_can_sleep(&mut self, can_sleep: bool)
        ensures
            final(self)@ == (RigidBodyView {
                can_sleep: old(self)@.can_sleep.set(can_sleep),
                actions: if can_sleep {
                    old(self)@.actions
                } else {
                    old(self)@.actions.push(ApplyAction::WakeUp)
                },
                ..old(self)@
            }),
    {
        self.can_sleep.set(can_sleep);
        if !can_sleep {
            self.actions.enqueue(ApplyAction::WakeUp);
        }
    }

    /// Whether the body may sleep.
    pub fn is_can_sleep(&self) -> (can_sleep: bool)
        ensures
            can_sleep == self@.can_sleep.value,
    {
        self.can_sleep.get()
    }

    /// Queues a wake-up, which makes the body take part in the simulation
    /// again.
    pub fn wake_up(&mut self)
        ensures
            final(self)@ == (RigidBodyView {
                actions: old(self)@.actions.push(ApplyAction::WakeUp),
                ..old(self)@
            }),
    {
        self.actions.enqueue(ApplyAction::WakeUp);
    }

    /// The handle of the backend's body. It is invalid until the simulation has
    /// registered the node.
    pub fn native(&self) -> (handle: NativeHandle)
        ensures
            handle == self@.native,
    {
        self.native
    }

    /// Records the handle of the backend's body. For the simulation, when it
    /// registers the node or lets its body go.
    pub fn set_native(&mut self, handle: NativeHandle)
        ensures
            final(self)@ == (RigidBodyView { native: handle, ..old(self)@ }),
    {
        self.native = handle;
    }

    /// Records whether the body sleeps. For the simulation, after a step.
    pub fn set_sleeping(&mut self, sleeping: bool)
        ensures
            final(self)@ == (RigidBodyView { sleeping, ..old(self)@ }),
    {
        self.sleeping = sleeping;
    }

    /// Takes the pending commands out of the node, oldest first. For the
    /// simulation, once per step: no command is handed out twice.
    pub fn drain_actions(&mut self) -> (drained: Vec<ApplyAction>)
        ensures
            drained@ == old(self)@.actions,
            final(self)@ == (RigidBodyView { actions: Seq::empty(), ..old(self)@ }),
    {
        self.actions.drain()
    }

    /// Hands out the value of every property that waits for synchronization
    /// and records the synchronization. For the simulation, once per step.
    pub fn sync_model(&mut self) -> (changes: ModelChanges)
        ensures
            changes == old(self)@.changes(),
            final(self)@ == old(self)@.synced(),
            !final(self)@.need_sync(),
    {
        ModelChanges {
            lin_vel: self.lin_vel.try_sync_model(),
            ang_vel: self.ang_vel.try_sync_model(),
            lin_damping: self.lin_damping.try_sync_model(),
            ang_damping: self.ang_damping.try_sync_model(),
            body_type: self.body_type.try_sync_model(),
            mass: self.mass.try_sync_model(),
            rotation_locked: self.rotation_locked.try_sync_model(),
            translation_locked: self.translation_locked.try_sync_model(),
            ccd_enabled: self.ccd_enabled.try_sync_model(),
            can_sleep: self.can_sleep.try_sync_model(),
        }
    }

    /// Resolves the inheritance of every property against `parent`. A parent
    /// that is no rigid body leaves the node as it is.
    pub fn inherit(&mut self, parent: &Node)
        ensures
            final(self)@ == match *parent {
                Node::RigidBody2D(parent_body) => old(self)@.inherit(parent_body@),
                Node::Base => old(self)@,
            },
    {
        if let Node::RigidBody2D(parent) = parent {
            self.lin_vel.try_inherit(&parent.lin_vel);
            self.ang_vel.try_inherit(&parent.ang_vel);
            self.lin_damping.try_inherit(&parent.lin_damping);
            self.ang_damping.try_inherit(&parent.ang_damping);
            self.body_type.try_inherit(&parent.body_type);
            self.mass.try_inherit(&parent.mass);
            self.rotation_locked.try_inherit(&parent.rotation_locked);
            self.translation_locked.try_inherit(&parent.translation_locked);
            self.ccd_enabled.try_inherit(&parent.ccd_enabled);
            self.can_sleep.try_inherit(&parent.can_sleep);
        }
    }

    /// Whether any property waits for synchronization.
    pub fn need_sync_model(&self) -> (need: bool)
        ensures
            need == self@.need_sync(),
    {
        self.lin_vel.need_sync() || self.ang_vel.need_sync() || self.lin_damping.need_sync()
            || self.ang_damping.need_sync() || self.body_type.need_sync() || self.mass.need_sync()
            || self.rotation_locked.need_sync() || self.translation_locked.need_sync()
            || self.ccd_enabled.need_sync() || self.can_sleep.need_sync()
    }
}

/// Collects what a rigid body is to start with, and makes the node.
#[derive(Clone, Copy, Debug)]
pub struct RigidBodyBuilder {
    pub lin_vel: Vector2,
    pub ang_vel: Real,
    pub lin_damping: Real,
    pub ang_damping: Real,
    pub sleeping: bool,
    pub body_type: RigidBodyType,
    pub mass: Real,
    pub rotation_locked: bool,
    pub translation_locked: bool,
    pub ccd_enabled: bool,
    pub can_sleep: bool,
}

impl RigidBodyBuilder {
    /// The body that this builder makes: every property holds the builder's
    /// value and mirrors its template, the sleeping flag is the builder's, the
    /// backend knows no body yet and nothing is pending.
    pub open spec fn built(self) -> RigidBodyView {
        RigidBodyView {
            lin_vel: VariableState::fresh(self.lin_vel),
            ang_vel: VariableState::fresh(self.ang_vel),
            lin_damping: VariableState::fresh(self.lin_damping),
            ang_damping: VariableState::fresh(self.ang_damping),
            body_type: VariableState::fresh(self.body_type),
            mass: VariableState::fresh(self.mass),
            rotation_locked: VariableState::fresh(self.rotation_locked),
            translation_locked: VariableState::fresh(self.translation_locked),
            ccd_enabled: VariableState::fresh(self.ccd_enabled),
            can_sleep: VariableState::fresh(self.can_sleep),
            sleeping: self.sleeping,
            native: invalid_handle(),
            actions: Seq::empty(),
        }
    }

    /// A builder for a body at rest: undamped, dynamic, of mass `1.0`, nothing
    /// locked, no continuous collision detection, free to sleep, awake.
    pub fn new() -> (builder: Self)
        ensures
            builder.built() == RigidBodyView::initial(),
    {
        RigidBodyBuilder {
            lin_vel: Vector2::zero(),
            ang_vel: Real::zero(),
            lin_damping: Real::zero(),
            ang_damping: Real::zero(),
            sleeping: false,
            body_type: RigidBodyType::Dynamic,
            mass: Real::one(),
            rotation_locked: false,
            translation_locked: false,
            ccd_enabled: false,
            can_sleep: true,
        }
    }

    /// Sets how the simulation is to treat the body.
    pub fn with_body_type(self, body_type: RigidBodyType) -> (builder: Self)
        ensures
            builder == (RigidBodyBuilder { body_type: body_type, ..self }),
    {
        RigidBodyBuilder { body_type, ..self }
    }

    /// Sets the additional mass of the body.
    pub fn with_mass(self, mass: Real) -> (builder: Self)
        ensures
            builder == (RigidBodyBuilder { mass: mass, ..self }),
    {
        RigidBodyBuilder { mass, ..self }
    }

    /// Sets whether continuous collision detection is to be on.
    pub fn with_ccd_enabled(self, enabled: bool) -> (builder: Self)
        ensures
            builder == (RigidBodyBuilder { ccd_enabled: enabled, ..self }),
    {
        RigidBodyBuilder { ccd_enabled: enabled, ..self }
    }

    /// Sets the linear velocity.
    pub fn with_lin_vel(self, lin_vel: Vector2) -> (builder: Self)
        ensures
            builder == (RigidBodyBuilder { lin_vel: lin_vel, ..self }),
    {
        RigidBodyBuilder { lin_vel, ..self }
    }

    /// Sets the angular velocity.
    pub fn with_ang_vel(self, ang_vel: Real) -> (builder: Self)
        ensures
            builder == (RigidBodyBuilder { ang_vel: ang_vel, ..self }),
    {
        RigidBodyBuilder { ang_vel, ..self }
    }

    /// Sets the angular damping.
    pub fn with_ang_damping(self, ang_damping: Real) -> (builder: Self)
        ensures
            builder == (RigidBodyBuilder { ang_damping: ang_damping, ..self }),
    {
        RigidBodyBuilder { ang_damping, ..self }
    }

    /// Sets the linear damping.
    pub fn with_lin_damping(self, lin_damping: Real) -> (builder: Self)
        ensures
            builder == (RigidBodyBuilder { lin_damping: lin_damping, ..self }),
    {
        RigidBodyBuilder { lin_damping, ..self }
    }

    /// Sets whether the rotation of the body is to be locked.
    pub fn with_rotation_locked(self, rotation_locked: bool) -> (builder: Self)
        ensures
            builder == (RigidBodyBuilder { rotation_locked: rotation_locked, ..self }),
    {
        RigidBodyBuilder { rotation_locked, ..self }
    }

    /// Sets whether the translation of the body is to be locked.
    pub fn with_translation_locked(self, translation_locked: bool) -> (builder: Self)
        ensures
            builder == (RigidBodyBuilder { translation_locked: translation_locked, ..self }),
    {
        RigidBodyBuilder { translation_locked, ..self }
    }

    /// Sets whether the body is to start asleep.
    pub fn with_sleeping(self, sleeping: bool) -> (builder: Self)
        ensures
            builder == (RigidBodyBuilder { sleeping: sleeping, ..self }),
    {
        RigidBodyBuilder { sleeping, ..self }
    }

    /// Sets whether the body may sleep.
    pub fn with_can_sleep(self, can_sleep: bool) -> (builder: Self)
        ensures
            builder == (RigidBodyBuilder { can_sleep: can_sleep, ..self }),
    {
        RigidBodyBuilder { can_sleep, ..self }
    }

    /// Makes the node. It belongs to no scene and no backend yet.
    pub fn build_node(self) -> (node: Node)
        ensures
            node matches Node::RigidBody2D(body) && body@ == self.built(),
    {
        let rigid_body = RigidBody {
            lin_vel: TemplateVariable::new(self.lin_vel),
            ang_vel: TemplateVariable::new(self.ang_vel),
            lin_damping: TemplateVariable::new(self.lin_damping),
            ang_damping: TemplateVariable::new(self.ang_damping),
            sleeping: self.sleeping,
            body_type: TemplateVariable::new(self.body_type),
            mass: TemplateVariable::new(self.mass),
            rotation_locked: TemplateVariable::new(self.rotation_locked),
            translation_locked: TemplateVariable::new(self.translation_locked),
            ccd_enabled: TemplateVariable::new(self.ccd_enabled),
            can_sleep: TemplateVariable::new(self.can_sleep),
            native: NativeHandle::invalid(),
            actions: ActionQueue::new(),
        };
        Node::RigidBody2D(rigid_body)
    }
}

} // verus!
