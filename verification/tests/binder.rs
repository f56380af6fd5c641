//! Binding a handler to a context.
use swagger::{AuthData, ContextWrapper, ContextWrapperExt, EmpContext, Has, Push, XSpanIdString};

#[derive(Debug, PartialEq)]
struct Handler {
    name: &'static str,
}

impl<'a, C> ContextWrapperExt<'a, C> for Handler {}

#[test]
fn new_binds_handler_and_context() {
    let handler = Handler { name: "h" };
    let wrapper = ContextWrapper::new(&handler, 42u32);
    assert!(std::ptr::eq(wrapper.api(), &handler));
    assert_eq!(wrapper.api(), &Handler { name: "h" });
    assert_eq!(*wrapper.context(), 42);
}

#[test]
fn with_context_gives_back_the_same_handler_and_an_equal_context() {
    let handler = Handler { name: "h" };
    let other = Handler { name: "h" };
    let ctx = EmpContext::default()
        .push(None::<AuthData>)
        .push(XSpanIdString("abc".to_string()));
    let wrapper = handler.with_context(ctx.clone());
    assert!(std::ptr::eq(wrapper.api(), &handler));
    assert!(!std::ptr::eq(wrapper.api(), &other));
    assert_eq!(
        Has::<XSpanIdString>::get(wrapper.context()),
        Has::<XSpanIdString>::get(&ctx)
    );
    assert_eq!(
        Has::<Option<AuthData>>::get(wrapper.context()),
        Has::<Option<AuthData>>::get(&ctx)
    );
}

#[test]
fn context_is_read_any_number_of_times() {
    let handler = Handler { name: "h" };
    let wrapper = handler.with_context(String::from("ctx"));
    assert_eq!(wrapper.context(), "ctx");
    assert_eq!(wrapper.context(), "ctx");
    assert_eq!(wrapper.api().name, "h");
}
