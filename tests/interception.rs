use sentra_lab_engine::error::EngineError;
use sentra_lab_engine::event::EventType;
use sentra_lab_engine::interceptor::{
    call_completed_event, call_made_event, forward_error_event, forward_failure, log_excerpt,
    plan_request, request_host, InterceptorConfig, RequestPlan, NO_ROUTE_MESSAGE,
};
use sentra_lab_engine::routing::{wildcard_match, Route, RoutingTable};
use sentra_lab_engine::shims::{LibraryShim, ShimConfig};
use sentra_lab_engine::syscall::{SyscallConfig, SyscallInterceptor};
use sentra_lab_engine::tls::{LeafCache, TlsConfig, TlsHandler};

#[test]
fn http_interceptor_test_config_default() {
    let config = InterceptorConfig::default();
    assert!(config.enable_https);
    assert!(config.log_requests);
    assert_eq!(config.listen_addr, "127.0.0.1:8888");
    assert_eq!(config.max_log_body_size, 10_000);
}

#[test]
fn library_shims_test_config_default() {
    let config = ShimConfig::default();
    assert!(config.mock_base_urls.iter().any(|(k, _)| k == "openai"));
    assert!(config.auto_inject);
}

#[test]
fn test_shim_creation() {
    let config = ShimConfig::default();
    let shim = LibraryShim::new(config);
    assert!(shim.config().mock_base_urls.len() >= 3);
}

#[test]
fn test_python_shim_generation() {
    let shim = LibraryShim::default();
    let code = shim.generate_openai_python_shim();
    assert!(code.contains("OPENAI_BASE_URL"));
    assert!(code.contains("localhost:8080"));
}

#[test]
fn test_nodejs_shim_generation() {
    let shim = LibraryShim::default();
    let code = shim.generate_openai_nodejs_shim();
    assert!(code.contains("process.env.OPENAI_BASE_URL"));
    assert!(code.contains("localhost:8080"));
}

#[test]
fn test_go_shim_generation() {
    let shim = LibraryShim::default();
    let code = shim.generate_openai_go_shim();
    assert!(code.contains("os.Setenv"));
    assert!(code.contains("OPENAI_BASE_URL"));
}

#[test]
fn library_shims_test_env_vars() {
    let shim = LibraryShim::default();
    let env_vars = shim.get_env_vars();
    assert!(env_vars.iter().any(|(k, _)| k == "OPENAI_API_KEY"));
    assert!(env_vars.iter().any(|(k, _)| k == "STRIPE_API_KEY"));
}

#[test]
fn shim_env_upper_cases_service_names() {
    let env = LibraryShim::default().get_env_vars();
    assert_eq!(env[0], ("OPENAI_BASE_URL".to_string(), "http://localhost:8080".to_string()));
    assert_eq!(env[2], ("STRIPE_BASE_URL".to_string(), "http://localhost:8082".to_string()));
    assert_eq!(env.len(), 6);
}

#[test]
fn shims_use_configured_urls_and_reject_unknown_pairs() {
    let config = ShimConfig {
        mock_base_urls: vec![("stripe".to_string(), "http://mock:9000".to_string())],
        auto_inject: false,
        custom_shims_path: None,
    };
    let shim = LibraryShim::new(config);
    assert!(shim.generate_shim("python", "stripe").unwrap().contains("http://mock:9000"));
    assert!(shim.generate_shim("go", "openai").unwrap().contains("http://localhost:8080"));
    let r = shim.generate_shim("ruby", "openai");
    assert!(matches!(r, Err(EngineError::ConfigError(_))));
}

#[test]
fn test_add_route() {
    let mut table = RoutingTable::new();
    let route = Route::new("api.example.com", "http://localhost:8080");
    table.add_route(route);
    let found = table.lookup("api.example.com");
    assert!(found.is_some());
    assert_eq!(found.unwrap().target, "http://localhost:8080");
}

#[test]
fn test_default_routes() {
    let table = RoutingTable::with_defaults();
    let openai = table.lookup("api.openai.com");
    assert!(openai.is_some());
    assert_eq!(openai.unwrap().target, "http://localhost:8080");
    let stripe = table.lookup("api.stripe.com");
    assert!(stripe.is_some());
    assert_eq!(stripe.unwrap().target, "http://localhost:8082");
}

#[test]
fn test_wildcard_match() {
    let mut table = RoutingTable::new();
    let route = Route::new("*.openai.com", "http://localhost:8080");
    table.add_route(route);
    let found = table.lookup("api.openai.com");
    assert!(found.is_some());
    let found = table.lookup("chat.openai.com");
    assert!(found.is_some());
}

#[test]
fn test_remove_route() {
    let mut table = RoutingTable::new();
    let route = Route::new("api.example.com", "http://localhost:8080");
    table.add_route(route);
    table.remove_route("api.example.com").unwrap();
    let found = table.lookup("api.example.com");
    assert!(found.is_none());
}

#[test]
fn test_export_config() {
    let table = RoutingTable::with_defaults();
    let config = table.export_config();
    assert!(config.contains("api.openai.com"));
    assert!(config.contains("api.stripe.com"));
}

#[test]
fn routing_lookup_scenario() {
    let mut table = RoutingTable::new();
    table.add_route(Route::new("api.openai.com", "U1"));
    table.add_route(Route::new("*.openai.com", "U2"));
    table.add_route(Route::new("*.foo.com", "U3"));
    assert_eq!(table.lookup("api.openai.com").unwrap().target, "U1");
    assert_eq!(table.lookup("chat.openai.com").unwrap().target, "U2");
    assert!(table.lookup("openai.com").is_none());
    assert_eq!(table.lookup("a.b.foo.com").unwrap().target, "U3");
    assert!(table.lookup("bar.net").is_none());
}

#[test]
fn wildcard_ranking_prefers_priority_then_length() {
    let mut table = RoutingTable::new();
    table.add_route(Route::new("*.example.com", "short"));
    table.add_route(Route::new("*.api.example.com", "long"));
    assert_eq!(table.lookup("v1.api.example.com").unwrap().target, "long");
    table.add_route(Route::new("*.example.com", "boosted").with_priority(5));
    assert_eq!(table.lookup("v1.api.example.com").unwrap().target, "boosted");
    assert_eq!(table.get_routes().len(), 2);
}

#[test]
fn wildcard_needs_a_proper_subdomain() {
    assert!(wildcard_match("*.x.com", "a.x.com"));
    assert!(!wildcard_match("*.x.com", "x.com"));
    assert!(!wildcard_match("*.x.com", "ax.com"));
    assert!(!wildcard_match("x.com", "a.x.com"));
}

#[test]
fn removing_a_missing_route_is_a_config_error() {
    let mut table = RoutingTable::with_defaults();
    let r = table.remove_route("nowhere.test");
    assert!(matches!(r, Err(EngineError::ConfigError(_))));
    table.clear_routes();
    assert!(table.get_routes().is_empty());
    assert_eq!(table.export_config(), "# Sentra Lab Routing Table\n\n");
}

#[test]
fn route_builders_set_fields() {
    let r = Route::new("a.com", "http://t").with_prefix("/v1").with_priority(7);
    assert_eq!(r.path_prefix.as_deref(), Some("/v1"));
    assert_eq!(r.priority, 7);
}

#[test]
fn proxy_route_miss_answers_502() {
    let table = RoutingTable::with_defaults();
    match plan_request(&table, "bar.net", Some("/v1/x")) {
        RequestPlan::Reject { status, body } => {
            assert_eq!(status, 502);
            assert_eq!(body, "No mock service configured for this host");
            assert_eq!(body, NO_ROUTE_MESSAGE);
        }
        RequestPlan::Forward { .. } => panic!("unrouted host was forwarded"),
    }
}

#[test]
fn proxy_forwards_to_target_with_path() {
    let table = RoutingTable::with_defaults();
    match plan_request(&table, "api.stripe.com", Some("/v1/charges?limit=3")) {
        RequestPlan::Forward { uri } => assert_eq!(uri, "http://localhost:8082/v1/charges?limit=3"),
        RequestPlan::Reject { .. } => panic!("routed host was rejected"),
    }
    match plan_request(&table, "api.openai.com", None) {
        RequestPlan::Forward { uri } => assert_eq!(uri, "http://localhost:8080/"),
        RequestPlan::Reject { .. } => panic!("routed host was rejected"),
    }
    assert_eq!(forward_failure(), (502, "Failed to reach mock service"));
}

#[test]
fn request_host_falls_back_to_header_without_port() {
    assert_eq!(request_host(Some("api.openai.com"), Some("other:1")), "api.openai.com");
    assert_eq!(request_host(None, Some("api.stripe.com:443")), "api.stripe.com");
    assert_eq!(request_host(None, Some("plain.host")), "plain.host");
    assert_eq!(request_host(None, None), "unknown");
}

#[test]
fn log_excerpt_cuts_long_bodies() {
    assert_eq!(log_excerpt("abcdef", 3), "abc");
    assert_eq!(log_excerpt("ab", 3), "ab");
}

#[test]
fn call_events_carry_request_and_status() {
    let made = call_made_event("e1".to_string(), "r".to_string(), 5, "GET", "http://localhost:8080/x");
    assert_eq!(made.event_type, EventType::ExternalCallMade);
    assert_eq!(made.data, "{\"method\":\"GET\",\"url\":\"http://localhost:8080/x\"}");
    let done = call_completed_event("e2".to_string(), "r".to_string(), 6, 201, 42);
    assert_eq!(done.data, "{\"status\":201}");
    assert_eq!(done.duration_us, Some(42));
    let failed = forward_error_event("e3".to_string(), "r".to_string(), 7, "http://x", "refused");
    assert_eq!(failed.event_type, EventType::ErrorEncountered);
    assert_eq!(failed.data, "{\"url\":\"http://x\",\"error\":\"refused\"}");
}

#[test]
fn syscall_interceptor_test_config_default() {
    let config = SyscallConfig::default();
    assert!(config.intercept_network);
    assert!(!config.intercept_file_io);
    assert!(config.intercept_time);
}

#[test]
fn syscall_interceptor_test_interceptor_creation() {
    let config = SyscallConfig::default();
    let interceptor = SyscallInterceptor::new(config);
    assert!(interceptor.config().intercept_network);
}

#[test]
fn syscall_interceptor_test_env_vars() {
    let config = SyscallConfig::default();
    let interceptor = SyscallInterceptor::new(config);
    let preload = interceptor.get_preload_env(false, &vec![false, false, false]).unwrap();
    let env_vars = interceptor.get_env_vars(preload);
    assert!(env_vars.iter().any(|(k, _)| k == "SENTRA_INTERCEPT_NETWORK"));
    assert!(env_vars.iter().any(|(k, _)| k == "SENTRA_INTERCEPT_TIME"));
}

#[test]
fn preload_search_takes_first_existing_path() {
    let s = SyscallInterceptor::default();
    let found = s.get_preload_env(false, &vec![false, true, true]).unwrap();
    assert_eq!(found.as_deref(), Some("/usr/local/lib/sentra-lab/libinterceptor.so"));
    assert!(s.is_available(false, &vec![false, false, true]));
    assert!(!s.is_available(false, &vec![false, false, false]));
    let env = s.get_env_vars(found);
    assert_eq!(env[0].0, "LD_PRELOAD");
    let configured = SyscallInterceptor::new(SyscallConfig {
        preload_library_path: Some("/opt/lib.so".to_string()),
        ..SyscallConfig::default()
    });
    assert_eq!(configured.get_preload_env(true, &vec![false; 3]).unwrap().as_deref(), Some("/opt/lib.so"));
    assert!(matches!(configured.get_preload_env(false, &vec![true; 3]), Err(EngineError::InterceptionFailed(_))));
}

#[test]
fn tls_handler_test_config_default() {
    let config = TlsConfig::default();
    assert!(config.enabled);
    assert!(config.auto_generate_certs);
}

#[test]
fn test_handler_creation() {
    let handler = TlsHandler::new();
    assert!(handler.is_enabled());
}

#[test]
fn test_cert_generation() {
    let handler = TlsHandler::new();
    let result = handler.generate_cert_for_domain("api.example.com");
    assert!(result.is_ok());
    let cert = result.unwrap();
    assert_eq!(cert.domain, "api.example.com");
}

#[test]
fn tls_errors_and_verification() {
    let off = TlsHandler::with_config(TlsConfig { auto_generate_certs: false, ..TlsConfig::default() });
    assert!(matches!(off.generate_cert_for_domain("a"), Err(EngineError::InterceptionFailed(_))));
    assert!(matches!(TlsHandler::new().load_ca_cert(), Err(EngineError::ConfigError(_))));
    let with_ca = TlsHandler::with_config(TlsConfig {
        ca_cert_path: Some("ca.pem".to_string()),
        ca_key_path: Some("ca.key".to_string()),
        ..TlsConfig::default()
    });
    assert!(with_ca.load_ca_cert().is_ok());
    let cert = TlsHandler::new().generate_cert_for_domain("a.com").unwrap();
    assert!(TlsHandler::new().verify_cert("a.com", &cert));
    assert!(!TlsHandler::new().verify_cert("b.com", &cert));
}

#[test]
fn leaf_certificates_only_for_routed_hosts() {
    let table = RoutingTable::with_defaults();
    let handler = TlsHandler::new();
    let mut cache = LeafCache::new();
    assert!(matches!(cache.certificate_for(&handler, &table, "bar.net"), Err(EngineError::InterceptionFailed(_))));
    let first = cache.certificate_for(&handler, &table, "api.openai.com").unwrap();
    assert_eq!(first.domain, "api.openai.com");
    let again = cache.certificate_for(&handler, &table, "api.openai.com").unwrap();
    assert_eq!(again.cert_pem, first.cert_pem);
}

#[test]
fn leaf_certificate_from_cache_even_when_issuing_is_off() {
    let table = RoutingTable::with_defaults();
    let mut cache = LeafCache::new();
    let on = TlsHandler::new();
    let off = TlsHandler::with_config(TlsConfig { auto_generate_certs: false, ..TlsConfig::default() });
    assert!(matches!(cache.certificate_for(&off, &table, "api.stripe.com"), Err(EngineError::InterceptionFailed(_))));
    cache.certificate_for(&on, &table, "api.stripe.com").unwrap();
    assert_eq!(cache.certificate_for(&off, &table, "api.stripe.com").unwrap().domain, "api.stripe.com");
}
