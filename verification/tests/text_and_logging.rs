//! Text normalization at the character level, and the middleware decisions.

use poke_spearify::middlewares::logger::{
    assign_request_id, LogLevel, LogMiddleware, RequestContext,
};
use poke_spearify::text::normalize_flavor_text;

fn fresh_context() -> RequestContext {
    RequestContext {
        request_id: None,
        log_has_run: false,
        method: "GET".to_string(),
        path: "/pokemon/charizard".to_string(),
        peer_addr: Some("127.0.0.1:4242".to_string()),
        referer: None,
        user_agent: Some("curl/8".to_string()),
        body_size: 0,
    }
}

#[test]
fn normalization_collapses_lines_and_form_feeds() {
    let raw = "  Spits fire that\nis hot enough to\nmelt boulders.\u{c}Known to cause forest fires\nunintentionally.  ";
    assert_eq!(
        normalize_flavor_text(raw),
        "Spits fire that is hot enough to melt boulders. Known to cause forest fires unintentionally."
    );
}

#[test]
fn normalization_is_idempotent_on_normalized_text() {
    let normalized = "Spits fire hot enough to melt boulders.";
    assert_eq!(normalize_flavor_text(normalized), normalized);
    let twice = normalize_flavor_text(&normalize_flavor_text("  a\n\u{c}b \n c "));
    assert_eq!(normalize_flavor_text(&twice), twice);
}

#[test]
fn normalization_edge_cases() {
    assert_eq!(normalize_flavor_text(""), "");
    assert_eq!(normalize_flavor_text("\n"), "");
    assert_eq!(normalize_flavor_text("a\nb"), "a b");
    assert_eq!(normalize_flavor_text("a\nb\n"), "a b");
    assert_eq!(normalize_flavor_text("a\r\nb"), "a b");
    assert_eq!(normalize_flavor_text("a\n\nb"), "a  b");
    assert_eq!(normalize_flavor_text("\t padded \u{c} text \u{a0}"), "padded   text");
    assert_eq!(normalize_flavor_text("\u{c}"), "");
}

#[test]
fn normalized_text_has_no_control_characters() {
    let raw = "one\ntwo\u{c}three\r\nfour";
    let normalized = normalize_flavor_text(raw);
    assert_eq!(normalized.contains('\n'), false);
    assert_eq!(normalized.contains('\u{c}'), false);
    assert_eq!(normalized, "one two three four");
}

#[test]
fn request_id_assignment_is_idempotent() {
    let mut ctx = fresh_context();
    assign_request_id(&mut ctx, "id-1".to_string());
    assert_eq!(ctx.request_id.as_deref(), Some("id-1"));
    // A request that already carries an ID passes through untouched.
    assign_request_id(&mut ctx, "id-2".to_string());
    assert_eq!(ctx.request_id.as_deref(), Some("id-1"));
}

#[test]
fn log_middleware_logs_a_request_exactly_once() {
    let middleware = LogMiddleware::new();
    let mut ctx = fresh_context();
    assign_request_id(&mut ctx, "id-7".to_string());

    let first = middleware.on_request(&mut ctx);
    let record = first.unwrap();
    assert_eq!(record.level, LogLevel::Trace);
    assert_eq!(record.message, "Incoming Request");
    assert_eq!(record.request_id, "id-7");
    assert_eq!(record.body_size, Some(0));
    assert_eq!(record.elapsed_ms, None);

    // Re-entry, as under nested routing: a no-op.
    let second = middleware.on_request(&mut ctx);
    assert_eq!(true, second.is_none());
}

#[test]
fn log_middleware_levels_follow_the_status() {
    let middleware = LogMiddleware::new();
    let mut ctx = fresh_context();
    assign_request_id(&mut ctx, "id-9".to_string());
    middleware.on_request(&mut ctx);

    let ok = middleware.on_response(&ctx, 200, 57, 12, None);
    assert_eq!(ok.level, LogLevel::Info);
    assert_eq!(ok.status, Some(200));
    assert_eq!(ok.body_size, Some(57));
    assert_eq!(ok.elapsed_ms, Some(12));
    assert_eq!(ok.request_id, "id-9");

    let detail = Some("Not Found".to_string());
    let client_error = middleware.on_response(&ctx, 404, 9, 3, detail);
    assert_eq!(client_error.level, LogLevel::Warn);
    assert_eq!(client_error.error_detail.as_deref(), Some("Not Found"));
    assert_eq!(client_error.body_size, None);
    assert_eq!(client_error.elapsed_ms, Some(3));

    let server_error = middleware.on_response(&ctx, 500, 16, 3, None);
    assert_eq!(server_error.level, LogLevel::Error);
    assert_eq!(server_error.elapsed_ms, None);
    assert_eq!(server_error.body_size, None);
}
