use rpg::engine::{Engine, EngineContext, EnginePhase};

#[test]
fn workflow() {
    let mut engine = Engine::new();

    engine.setup(|context| {
        // Setup your game

        // Return the altered/non-altered context
        context
    });

    engine.update(|context| {
        // Implement your update mechanics

        // Return the altered/non-altered context
        context
    });

    engine.draw(|context| {
        // Implement your output

        // Return the altered/non-altered context
        context
    });

    // Start the engine => run the game
    assert!(engine.is_ready());
    let mut phase = EnginePhase::Setup;
    let mut context = EngineContext::new();
    while phase != EnginePhase::Stopped {
        let (next, after) = engine.step(phase, context);
        phase = next;
        context = after;
    }
}

#[test]
fn engine_runs_update_and_draw_until_stopped() {
    let mut engine = Engine::new();
    engine.setup(|mut context: EngineContext| {
        context.running = true;
        context
    });
    engine.update(|mut context: EngineContext| {
        context.maps.push(1);
        context.invalid = context.maps.len() % 2 == 1;
        context.running = context.maps.len() < 4;
        context
    });
    engine.draw(|mut context: EngineContext| {
        context.maps.push(0);
        context.invalid = false;
        context
    });

    let mut phases = Vec::new();
    let mut phase = EnginePhase::Setup;
    let mut context = EngineContext::new();
    while phase != EnginePhase::Stopped {
        let (next, after) = engine.step(phase, context);
        phase = next;
        context = after;
        phases.push(phase);
    }

    assert_eq!(context.maps, vec![1, 0, 1, 0, 1, 0]);
    assert_eq!(
        phases,
        vec![
            EnginePhase::Update,
            EnginePhase::Draw,
            EnginePhase::Update,
            EnginePhase::Draw,
            EnginePhase::Update,
            EnginePhase::Draw,
            EnginePhase::Stopped,
        ]
    );
}

#[test]
fn new_engine_is_not_ready() {
    let mut engine = Engine::new();
    engine.setup(|context: EngineContext| context);
    engine.update(|context: EngineContext| context);
    assert!(!engine.is_ready());
    engine.draw(|context: EngineContext| context);
    assert!(engine.is_ready());
}
