use reimu::cpu::quirks::Quirks;
use reimu::cpu::Cpu;
use reimu::gpu::Gpu;

fn machine(quirks: Quirks, program: &[u8]) -> Cpu {
    let mut cpu = Cpu::with_quirks(Gpu::new(), quirks);
    cpu.load(program).unwrap();
    cpu
}

fn run(cpu: &mut Cpu, steps: usize) {
    for _ in 0..steps {
        cpu.step_with(0).unwrap();
    }
}

fn lit(pixels: &[bool]) -> Vec<(usize, usize)> {
    let mut on = Vec::new();
    for (idx, pixel) in pixels.iter().enumerate() {
        if *pixel {
            on.push((idx % 64, idx / 64));
        }
    }
    on
}

fn shifting() -> Quirks {
    Quirks { shift_in_place: true, ..Quirks::classic() }
}

fn keeping() -> Quirks {
    Quirks { keep_index: true, ..Quirks::classic() }
}

fn clipping() -> Quirks {
    Quirks { clip_sprites: true, ..Quirks::classic() }
}

#[test]
fn classic_choices_are_all_off() {
    let quirks = Quirks::classic();
    assert!(!quirks.shift_in_place);
    assert!(!quirks.keep_index);
    assert!(!quirks.clip_sprites);
    assert_eq!(Cpu::new(Gpu::new()).quirks(), quirks);
}

#[test]
fn a_machine_keeps_its_quirks() {
    let quirks = Quirks { shift_in_place: true, keep_index: false, clip_sprites: true };
    let mut cpu = machine(quirks, &[0x60, 0x01, 0x00, 0xE0]);
    assert_eq!(cpu.quirks(), quirks);
    run(&mut cpu, 2);
    cpu.tick_timers();
    cpu.set_key(1, true);
    assert_eq!(cpu.quirks(), quirks);
    cpu.reset();
    assert_eq!(cpu.quirks(), quirks);
}

#[test]
fn a_machine_with_quirks_starts_like_any_other() {
    let a = Cpu::new(Gpu::new());
    let b = Cpu::with_quirks(
        Gpu::new(),
        Quirks { shift_in_place: true, keep_index: true, clip_sprites: true },
    );
    assert_eq!(a.memory(), b.memory());
    assert_eq!(a.pc(), b.pc());
    assert_eq!(a.sp(), b.sp());
    assert_eq!(a.screen(), b.screen());
    assert_eq!(a.running(), b.running());
}

#[test]
fn shr_in_place_shifts_vx() {
    let program = [0x60, 0x55, 0x61, 0x06, 0x80, 0x16];
    let mut cpu = machine(shifting(), &program);
    run(&mut cpu, 3);
    assert_eq!((cpu.register(0), cpu.register(1), cpu.register(0xF)), (0x2A, 0x06, 1));
    let mut cpu = machine(Quirks::classic(), &program);
    run(&mut cpu, 3);
    assert_eq!((cpu.register(0), cpu.register(1), cpu.register(0xF)), (0x03, 0x06, 0));
}

#[test]
fn shl_in_place_shifts_vx() {
    let program = [0x60, 0x81, 0x61, 0x06, 0x80, 0x1E];
    let mut cpu = machine(shifting(), &program);
    run(&mut cpu, 3);
    assert_eq!((cpu.register(0), cpu.register(1), cpu.register(0xF)), (0x02, 0x06, 1));
    let mut cpu = machine(Quirks::classic(), &program);
    run(&mut cpu, 3);
    assert_eq!((cpu.register(0), cpu.register(1), cpu.register(0xF)), (0x0C, 0x06, 0));
}

#[test]
fn shifting_in_place_changes_nothing_else() {
    let program = [0x60, 0xFF, 0x61, 0x02, 0x80, 0x14, 0xA3, 0x00, 0xF1, 0x55];
    let mut cpu = machine(shifting(), &program);
    run(&mut cpu, 5);
    assert_eq!((cpu.register(0), cpu.register(0xF)), (0x01, 1));
    assert_eq!(cpu.address_register(), 0x302);
}

#[test]
fn str_and_ldr_keep_the_index() {
    let program = [0x60, 0x11, 0x61, 0x22, 0xA3, 0x00, 0xF1, 0x55, 0x60, 0x00, 0x61, 0x00, 0xF1, 0x65];
    let mut cpu = machine(keeping(), &program);
    run(&mut cpu, 4);
    assert_eq!(cpu.address_register(), 0x300);
    assert_eq!(&cpu.memory()[0x300..0x303], &[0x11, 0x22, 0]);
    run(&mut cpu, 3);
    assert_eq!(cpu.address_register(), 0x300);
    assert_eq!((cpu.register(0), cpu.register(1)), (0x11, 0x22));
    let mut cpu = machine(Quirks::classic(), &program);
    run(&mut cpu, 7);
    assert_eq!(cpu.address_register(), 0x304);
    assert_eq!((cpu.register(0), cpu.register(1)), (0, 0));
}

#[test]
fn clipped_sprite_stops_at_the_edges() {
    // I = 0x20A, V0 = 62, V1 = 31; the sprite is F0 80.
    let program = [0xA2, 0x0A, 0x60, 0x3E, 0x61, 0x1F, 0xD0, 0x12, 0xD0, 0x12, 0xF0, 0x80];
    let mut cpu = machine(clipping(), &program);
    run(&mut cpu, 4);
    assert_eq!(cpu.register(0xF), 0);
    assert!(cpu.redraw());
    assert_eq!(lit(cpu.screen()), vec![(62, 31), (63, 31)]);
    run(&mut cpu, 1);
    assert_eq!(cpu.register(0xF), 1);
    assert_eq!(lit(cpu.screen()), vec![]);
}

#[test]
fn clipped_sprite_inside_the_screen_is_whole() {
    let program = [0xA0, 0x50, 0x60, 0x38, 0x61, 0x1B, 0xD0, 0x15];
    let mut clipped = machine(clipping(), &program);
    let mut wrapped = machine(Quirks::classic(), &program);
    run(&mut clipped, 4);
    run(&mut wrapped, 4);
    assert_eq!(clipped.screen(), wrapped.screen());
    assert_eq!(lit(clipped.screen()).len(), 14);
}

#[test]
fn clipped_sprite_origin_still_wraps() {
    let program = [0xA0, 0x50, 0x60, 0x7E, 0x61, 0x3F, 0xD0, 0x15];
    let mut cpu = machine(clipping(), &program);
    run(&mut cpu, 4);
    // 0x7E mod 64 = 62, 0x3F mod 32 = 31: the top row F0 of glyph 0, cut to two columns.
    assert_eq!(lit(cpu.screen()), vec![(62, 31), (63, 31)]);
}

#[test]
fn display_clips_on_request() {
    let mut gpu = Gpu::new();
    assert!(!gpu.draw_sprite_clipped(60, 30, &[0xFF, 0x81, 0xFF]));
    assert_eq!(lit(gpu.screen()), vec![(60, 30), (61, 30), (62, 30), (63, 30), (60, 31)]);
    assert!(gpu.draw_sprite_clipped(60 + 64, 30 + 32, &[0x80]));
    assert_eq!(lit(gpu.screen()), vec![(61, 30), (62, 30), (63, 30), (60, 31)]);
}

#[test]
fn display_clips_nothing_that_fits() {
    let mut a = Gpu::new();
    let mut b = Gpu::new();
    a.draw_sprite_clipped(56, 0, &[0xFF; 32]);
    b.draw_sprite(56, 0, &[0xFF; 32]);
    assert_eq!(a.screen(), b.screen());
    assert_eq!(lit(a.screen()).len(), 256);
}

#[test]
fn display_clips_the_last_column_and_line() {
    let mut gpu = Gpu::new();
    gpu.draw_sprite_clipped(63, 31, &[0xFF, 0xFF]);
    assert_eq!(lit(gpu.screen()), vec![(63, 31)]);
    gpu.draw_sprite_clipped(57, 0, &[0xFF]);
    assert_eq!(lit(gpu.screen()).len(), 8);
    assert!(!gpu.draw_sprite_clipped(0, 0, &[]));
}

#[test]
fn clipped_drawing_twice_restores_the_frame() {
    let mut gpu = Gpu::new();
    gpu.set(61, 31, true);
    gpu.set(3, 0, true);
    let before = gpu.screen().to_vec();
    gpu.draw_sprite_clipped(60, 29, &[0xF0, 0x90, 0x90, 0x90, 0xF0]);
    assert_ne!(gpu.screen(), &before[..]);
    assert!(gpu.draw_sprite_clipped(60, 29, &[0xF0, 0x90, 0x90, 0x90, 0xF0]));
    assert_eq!(gpu.screen(), &before[..]);
}
