use fennec::error::Cause;
use fennec::error::ErrorKind;
use fennec::text::find_nul;
use fennec::vm::graphicsengine::device::DeviceCall;
use fennec::vm::graphicsengine::device::MemoryType;
use fennec::vm::graphicsengine::queuefamily::QueueFamilyCollection;
use fennec::vm::graphicsengine::queuefamily::QueueFamilyProperties;
use fennec::vm::graphicsengine::shadermodule::is_reflectable;
use fennec::vm::graphicsengine::shadermodule::ShaderModule;
use fennec::vm::graphicsengine::sync::Fence;
use fennec::vm::graphicsengine::sync::Semaphore;
use fennec::vm::graphicsengine::vkobject::check_name;
use fennec::vm::graphicsengine::vkobject::HandleType;
use fennec::vm::graphicsengine::vkobject::VKObject;
use fennec::vm::graphicsengine::Context;

fn fresh_context() -> Context {
    Context::new(1, vec![MemoryType { property_flags: 0x6, heap_index: 0 }])
}

fn cause_text(cause: &Option<Cause>) -> String {
    match cause {
        Some(Cause::Message(text)) => text.clone(),
        _ => String::new(),
    }
}

fn code_of(words: &[u32]) -> Vec<u8> {
    words.iter().flat_map(|word| word.to_le_bytes()).collect()
}

#[test]
fn nul_is_found_by_its_byte() {
    assert_eq!(find_nul("frame"), None);
    assert_eq!(find_nul(""), None);
    assert_eq!(find_nul("\0"), Some(0));
    assert_eq!(find_nul("ab\0c\0"), Some(2));
    assert_eq!(find_nul("é\0"), Some(2));
    assert_eq!(find_nul("日本\0語"), Some(6));
}

#[test]
fn name_with_nul_is_refused_and_kept() {
    let mut context = fresh_context();
    let mut semaphore = Semaphore::new(&mut context).expect("semaphore");
    context.take_calls();
    let refused = semaphore.set_name(&mut context, "fra\0me").expect_err("NUL in the name");
    assert_eq!(refused.kind(), ErrorKind::General);
    assert_eq!(refused.description(), "Could not convert object name to a CString");
    assert_eq!(cause_text(refused.cause()), "nul byte found in provided data at position: 3");
    assert_eq!(refused.message(), "Could not convert object name to a CString: nul byte found in provided data at position: 3");
    assert_eq!(semaphore.name(), "fra\0me");
    assert!(context.calls().is_empty());
    semaphore.set_name(&mut context, "frame").expect("named");
    assert_eq!(semaphore.name(), "frame");
    assert_eq!(context.calls().len(), 1);
}

#[test]
fn borrow_conflict_comes_before_the_nul() {
    let mut context = fresh_context();
    let mut fence = Fence::new(&mut context, false).expect("fence");
    context.take_calls();
    context.try_borrow_mut().expect("exclusive");
    let refused = fence.set_name(&mut context, "a\0").expect_err("borrowed");
    assert_eq!(refused.kind(), ErrorKind::BorrowConflict);
    assert_eq!(fence.name(), "a\0");
    assert_eq!(check_name(&context, "fine").expect_err("borrowed").kind(), ErrorKind::BorrowConflict);
    context.release_borrow_mut();
    assert!(check_name(&context, "fine").is_ok());
    assert_eq!(check_name(&context, "\0").expect_err("NUL").kind(), ErrorKind::General);
    assert!(context.calls().is_empty());
}

#[test]
fn object_that_cannot_be_named_is_given_up() {
    let mut context = fresh_context();
    let semaphore = Semaphore::new(&mut context).expect("semaphore");
    let handle = semaphore.handle();
    context.take_calls();
    let refused = semaphore.with_name(&mut context, "\0").expect_err("NUL in the name");
    assert_eq!(cause_text(refused.cause()), "nul byte found in provided data at position: 0");
    assert_eq!(
        context.take_calls(),
        vec![DeviceCall::Destroy { handle_type: HandleType::Semaphore, handle }]
    );
    let kept = Semaphore::new(&mut context).expect("semaphore");
    context.take_calls();
    context.try_borrow_mut().expect("exclusive");
    assert_eq!(
        kept.with_name(&mut context, "frame").expect_err("borrowed").kind(),
        ErrorKind::BorrowConflict
    );
    assert!(context.calls().is_empty());
}

#[test]
fn families_are_set_up_under_their_fixed_names() {
    let mut context = fresh_context();
    let reported = vec![QueueFamilyProperties { queue_flags: 0x7, queue_count: 2, supports_present: true }];
    let mut families = QueueFamilyCollection::new(&reported).expect("families");
    families.setup(&mut context).expect("the names of the three families hold no NUL");
    assert!(families.graphics().command_pools().is_some());
}

#[test]
fn children_follow_a_name_with_nul() {
    let mut context = fresh_context();
    let reported = vec![QueueFamilyProperties { queue_flags: 0x7, queue_count: 1, supports_present: true }];
    let mut families = QueueFamilyCollection::new(&reported).expect("families");
    families.setup(&mut context).expect("setup");
    let pool = families.graphics_mut().command_pools_mut().expect("pools").transient_mut();
    pool.create_command_buffers(&mut context, 2).expect("batch");
    context.take_calls();
    let refused = pool.set_name(&mut context, "po\0ol").expect_err("NUL in the name");
    assert_eq!(cause_text(refused.cause()), "nul byte found in provided data at position: 2");
    assert_eq!(pool.name(), "po\0ol");
    assert!(context.calls().is_empty());
    let children = pool.set_children_names(&mut context).expect_err("the pool's name holds a NUL");
    assert_eq!(cause_text(children.cause()), "nul byte found in provided data at position: 2");
    assert!(context.calls().is_empty());
    pool.set_name(&mut context, "pool").expect("named");
    assert_eq!(context.calls().len(), 3);
}

#[test]
fn code_is_framed_before_reflection_is_asked() {
    let magic = 0x0723_0203u32;
    assert!(!is_reflectable(&[]));
    assert!(!is_reflectable(&[0u8; 8]));
    assert!(!is_reflectable(&[0u8; 16]));
    assert!(is_reflectable(&code_of(&[magic, 0x0001_0000, 0, 1, 0])));
    assert!(!is_reflectable(&code_of(&[magic, 0x0001_0000, 0, 1, 0, 0])));
    assert!(is_reflectable(&code_of(&[magic, 0x0001_0000, 0, 1, 0, (1 << 16) | 1])));
    assert!(is_reflectable(&code_of(&[magic, 0x0001_0000, 0, 1, 0, (2 << 16) | 17, 1])));
    assert!(!is_reflectable(&code_of(&[magic, 0x0001_0000, 0, 1, 0, (3 << 16) | 17, 1])));
    assert!(!is_reflectable(&code_of(&[magic, 0x0001_0000, 0, 1, 0, (2 << 16) | 17, 1, 17])));
    let mut odd = code_of(&[magic, 0x0001_0000, 0, 1, 0]);
    odd.push(0);
    assert!(!is_reflectable(&odd));
}

#[test]
fn instruction_without_words_is_not_framed() {
    let endless = code_of(&[0x0723_0203, 0x0001_0000, 0, 1, 0, 0]);
    assert_eq!(endless.len(), 24);
    assert!(!is_reflectable(&endless));
    assert!(!is_reflectable(ShaderModule::code_of(&endless)));
    let one_word = code_of(&[0x0723_0203, 0x0001_0000, 0, 1, 0, 0x0001_0013]);
    assert!(is_reflectable(&one_word));
}
