//! A chain of segments held together by fixed joints, its head following a
//! pointer: the library says how fast each segment should go, rapier moves
//! the bodies.

use nalgebra::{Isometry2, Vector2};
use rapier2d::prelude::{
    BroadPhaseMultiSap, CCDSolver, ColliderBuilder, ColliderSet, FixedJointBuilder,
    ImpulseJointSet, IntegrationParameters, IslandManager, MultibodyJointSet, NarrowPhase,
    PhysicsPipeline, RigidBodyBuilder, RigidBodyHandle, RigidBodySet, Rotation,
};
use softies::follow::{chain_follow_velocities, follow_velocity, smoothed_angle};
use softies::vec2::Vec2;

const PIXELS_PER_METER: f32 = 50.0;

fn to_fixed(x: f32) -> i64 {
    (x as f64 * 1_000_000.0).round() as i64
}

fn to_float(x: i64) -> f32 {
    (x as f64 / 1_000_000.0) as f32
}

fn to_vec2(v: &Vector2<f32>) -> Vec2 {
    Vec2::new(to_fixed(v.x), to_fixed(v.y))
}

fn to_vector(v: Vec2) -> Vector2<f32> {
    Vector2::new(to_float(v.x), to_float(v.y))
}

#[derive(Clone, Copy)]
struct PhysicsParams {
    linear_damping: f32,
    angular_damping: f32,
    #[allow(dead_code)]
    joint_limits: f32,
    #[allow(dead_code)]
    motor_stiffness: f32,
    #[allow(dead_code)]
    motor_damping: f32,
    head_speed: f32,
    body_speed: f32,
    #[allow(dead_code)]
    spring_constant: f32,
}

struct PhysicsWorld {
    rigid_body_set: RigidBodySet,
    collider_set: ColliderSet,
    joint_set: ImpulseJointSet,
    multibody_joint_set: MultibodyJointSet,
    island_manager: IslandManager,
    integration_parameters: IntegrationParameters,
    physics_pipeline: PhysicsPipeline,
    broad_phase: BroadPhaseMultiSap,
    narrow_phase: NarrowPhase,
    ccd_solver: CCDSolver,
}

impl PhysicsWorld {
    fn new() -> PhysicsWorld {
        PhysicsWorld {
            rigid_body_set: RigidBodySet::new(),
            collider_set: ColliderSet::new(),
            joint_set: ImpulseJointSet::new(),
            multibody_joint_set: MultibodyJointSet::new(),
            island_manager: IslandManager::new(),
            integration_parameters: IntegrationParameters::default(),
            physics_pipeline: PhysicsPipeline::new(),
            broad_phase: BroadPhaseMultiSap::new(),
            narrow_phase: NarrowPhase::new(),
            ccd_solver: CCDSolver::new(),
        }
    }

    fn step(&mut self, dt: f32) {
        self.integration_parameters.dt = dt;
        self.physics_pipeline.step(
            &Vector2::zeros(),
            &self.integration_parameters,
            &mut self.island_manager,
            &mut self.broad_phase,
            &mut self.narrow_phase,
            &mut self.rigid_body_set,
            &mut self.collider_set,
            &mut self.joint_set,
            &mut self.multibody_joint_set,
            &mut self.ccd_solver,
            None,
            &(),
            &(),
        );
    }
}

/// The demonstration creature: eight segments, the head larger than the
/// others, laid out to the left of the head.
struct DemoCreature {
    physics_world: PhysicsWorld,
    rigid_body_handles: Vec<RigidBodyHandle>,
}

impl DemoCreature {
    fn with_parameters(params: &PhysicsParams) -> DemoCreature {
        let mut physics_world = PhysicsWorld::new();
        let mut rigid_body_handles = Vec::new();
        for i in 0..8 {
            let pos = (400.0 - 30.0 * i as f32, 300.0);
            let radius = if i == 0 { 15.0 } else { 10.0 };
            let rigid_body = RigidBodyBuilder::dynamic()
                .translation(Vector2::new(pos.0 / PIXELS_PER_METER, pos.1 / PIXELS_PER_METER))
                .linear_damping(params.linear_damping)
                .angular_damping(params.angular_damping)
                .dominance_group(if i == 0 { 1 } else { 0 })
                .build();
            let handle = physics_world.rigid_body_set.insert(rigid_body);
            rigid_body_handles.push(handle);
            let collider = ColliderBuilder::ball(radius / PIXELS_PER_METER)
                .restitution(0.1)
                .friction(0.3)
                .build();
            physics_world.collider_set.insert_with_parent(
                collider,
                handle,
                &mut physics_world.rigid_body_set,
            );
        }
        // Convert 30 pixels to meters
        let target_distance = 30.0 / PIXELS_PER_METER;
        for i in 1..rigid_body_handles.len() {
            let joint = FixedJointBuilder::new()
                .local_frame1(Isometry2::translation(0.0, 0.0))
                .local_frame2(Isometry2::translation(target_distance, 0.0))
                .build();
            physics_world.joint_set.insert(
                rigid_body_handles[i - 1],
                rigid_body_handles[i],
                joint,
                true,
            );
        }
        DemoCreature { physics_world, rigid_body_handles }
    }

    /// Sends the head after the pointer and every other segment after the
    /// one before it.
    fn follow(&mut self, cursor_pos: Vector2<f32>, params: &PhysicsParams) {
        let mut positions = Vec::with_capacity(self.rigid_body_handles.len());
        let mut velocities = Vec::with_capacity(self.rigid_body_handles.len());
        for handle in &self.rigid_body_handles {
            match self.physics_world.rigid_body_set.get(*handle) {
                Some(body) => {
                    positions.push(to_vec2(body.translation()));
                    velocities.push(to_vec2(body.linvel()));
                }
                None => {
                    positions.push(Vec2::zero());
                    velocities.push(Vec2::zero());
                }
            }
        }
        let followers =
            chain_follow_velocities(&positions, &velocities, to_fixed(params.body_speed));

        // Update head movement
        if let Some(head) = self
            .rigid_body_handles
            .first()
            .and_then(|handle| self.physics_world.rigid_body_set.get_mut(*handle))
        {
            let new_vel = follow_velocity(
                positions[0],
                to_vec2(&cursor_pos),
                velocities[0],
                to_fixed(params.head_speed),
            );
            if let Some(new_vel) = new_vel {
                head.set_linvel(to_vector(new_vel), true);
                // Add slight rotation to face movement direction
                let to_cursor = cursor_pos - head.translation();
                let angle = to_cursor.y.atan2(to_cursor.x);
                let new_angle = smoothed_angle(to_fixed(head.rotation().angle()), to_fixed(angle));
                head.set_rotation(Rotation::new(to_float(new_angle)), true);
            }
        }

        // Update body segments to follow their predecessors
        for (handle, velocity) in self.rigid_body_handles.iter().zip(followers.iter()) {
            if let (Some(velocity), Some(body)) =
                (velocity, self.physics_world.rigid_body_set.get_mut(*handle))
            {
                body.set_linvel(to_vector(*velocity), true);
            }
        }
    }
}

// Helper struct to simulate cursor movement
struct TestContext {
    cursor_pos: (f32, f32),
    time: f32,
}

impl TestContext {
    fn new() -> Self {
        Self { cursor_pos: (400.0, 300.0), time: 0.0 }
    }

    fn update(&mut self, dt: f32) {
        self.time += dt;
        // Move cursor in a figure-8 pattern
        let scale = 200.0;
        let speed = 1.0;
        self.cursor_pos.0 = 400.0 + scale * (self.time * speed).sin();
        self.cursor_pos.1 = 300.0 + scale * (self.time * speed * 2.0).sin();
    }
}

#[test]
fn test_physics_parameters() {
    // Test parameters that focus on stability without movement
    let params = PhysicsParams {
        linear_damping: 0.99,
        angular_damping: 0.99,
        joint_limits: 0.1,
        motor_stiffness: 0.0,
        motor_damping: 0.0,
        head_speed: 0.0,
        body_speed: 0.0,
        spring_constant: 0.0,
    };

    let mut creature = DemoCreature::with_parameters(&params);

    // Record initial positions before simulation
    let mut initial_positions = Vec::new();
    for handle in &creature.rigid_body_handles {
        if let Some(body) = creature.physics_world.rigid_body_set.get(*handle) {
            initial_positions.push(*body.translation());
        }
    }

    // Simulate for 1 second with fixed timestep
    let dt = 1.0 / 60.0;
    let mut time = 0.0;
    let max_time = 1.0;
    let mut is_stable = true;
    let mut max_velocity: f32 = 0.0;
    let mut max_displacement: f32 = 0.0;

    while time < max_time {
        // Step physics
        creature.physics_world.step(dt);

        // Check positions and velocities of all segments
        for (i, handle) in creature.rigid_body_handles.iter().enumerate() {
            if let Some(body) = creature.physics_world.rigid_body_set.get(*handle) {
                // Check velocity
                let vel = body.linvel();
                let speed = (vel.x * vel.x + vel.y * vel.y).sqrt();
                max_velocity = max_velocity.max(speed);

                // Check displacement from initial position
                let pos = *body.translation();
                let initial_pos = initial_positions[i];
                let displacement = (pos - initial_pos).magnitude();
                max_displacement = max_displacement.max(displacement);

                // Convert position from meters to pixels
                let pos_pixels = (pos.x * PIXELS_PER_METER, pos.y * PIXELS_PER_METER);

                // Check if out of bounds
                if pos_pixels.0 < -100.0
                    || pos_pixels.0 > 900.0
                    || pos_pixels.1 < -100.0
                    || pos_pixels.1 > 700.0
                {
                    is_stable = false;
                    break;
                }
            }
        }

        if !is_stable {
            break;
        }

        time += dt;
    }

    println!("\nTest Results:");
    println!("Stable: {}", is_stable);
    println!("Max Velocity: {:.2} m/s", max_velocity);
    println!("Max Displacement: {:.2} m", max_displacement);

    // A successful test means:
    // 1. The creature stays in bounds
    // 2. Velocities remain small (indicating good damping)
    // 3. Displacement is small (indicating good joint constraints)
    assert!(is_stable, "Creature went out of bounds");
    assert!(max_velocity < 1.0, "Velocity too high: {:.2} m/s", max_velocity);
    assert!(max_displacement < 0.5, "Displacement too high: {:.2} m", max_displacement);
}

#[test]
fn test_movement_with_fixed_joints() {
    // Test parameters for movement
    let params = PhysicsParams {
        linear_damping: 0.98,
        angular_damping: 0.98,
        joint_limits: 0.1,
        motor_stiffness: 0.0,
        motor_damping: 0.0,
        head_speed: 1.0,
        body_speed: 0.8,
        spring_constant: 0.0,
    };

    let mut creature = DemoCreature::with_parameters(&params);

    // Record initial positions
    let mut initial_positions = Vec::new();
    for handle in &creature.rigid_body_handles {
        if let Some(body) = creature.physics_world.rigid_body_set.get(*handle) {
            initial_positions.push(*body.translation());
        }
    }

    // Simulate for 2 seconds with fixed timestep
    let dt = 1.0 / 60.0;
    let mut time = 0.0;
    let max_time = 2.0;
    let mut is_stable = true;
    let mut max_velocity: f32 = 0.0;
    let mut max_displacement: f32 = 0.0;
    let mut total_movement: f32 = 0.0;

    // Create a test context that moves the cursor in a figure-8 pattern
    let mut test_ctx = TestContext::new();

    while time < max_time {
        // Update cursor position
        test_ctx.update(dt);

        // Get cursor position in physics units
        let cursor_pos = Vector2::new(
            test_ctx.cursor_pos.0 / PIXELS_PER_METER,
            test_ctx.cursor_pos.1 / PIXELS_PER_METER,
        );

        // Update head movement and let the body segments follow
        creature.follow(cursor_pos, &params);

        // Step physics
        creature.physics_world.step(dt);

        // Check positions and velocities
        for (i, handle) in creature.rigid_body_handles.iter().enumerate() {
            if let Some(body) = creature.physics_world.rigid_body_set.get(*handle) {
                // Check velocity
                let vel = body.linvel();
                let speed = (vel.x * vel.x + vel.y * vel.y).sqrt();
                max_velocity = max_velocity.max(speed);

                // Check displacement from initial position
                let pos = *body.translation();
                let initial_pos = initial_positions[i];
                let displacement = (pos - initial_pos).magnitude();
                max_displacement = max_displacement.max(displacement);

                // Track total movement
                if i == 0 {
                    // Only track head movement
                    total_movement += speed * dt;
                }

                // Convert position from meters to pixels
                let pos_pixels = (pos.x * PIXELS_PER_METER, pos.y * PIXELS_PER_METER);

                // Check if out of bounds
                if pos_pixels.0 < -100.0
                    || pos_pixels.0 > 900.0
                    || pos_pixels.1 < -100.0
                    || pos_pixels.1 > 700.0
                {
                    is_stable = false;
                    break;
                }
            }
        }

        if !is_stable {
            break;
        }

        time += dt;
    }

    println!("\nMovement Test Results:");
    println!("Stable: {}", is_stable);
    println!("Max Velocity: {:.2} m/s", max_velocity);
    println!("Max Displacement: {:.2} m", max_displacement);
    println!("Total Head Movement: {:.2} m", total_movement);

    // A successful movement test means:
    // 1. The creature stays in bounds
    // 2. Velocities remain reasonable
    // 3. The head moves a significant distance
    // 4. The body follows the head without excessive stretching
    assert!(is_stable, "Creature went out of bounds");
    assert!(max_velocity < 3.0, "Velocity too high: {:.2} m/s", max_velocity);
    assert!(max_displacement < 2.0, "Displacement too high: {:.2} m", max_displacement);
    assert!(total_movement > 1.0, "Insufficient movement: {:.2} m", total_movement);
}
