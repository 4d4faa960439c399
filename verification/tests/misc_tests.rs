use base64::Engine;
use lennard_workflow::address::AddressExtractor;
use lennard_workflow::config::{default_dossier, default_letterexpress_mode, default_pdf_service,
    default_zoho_base_url, BaserowConfig, DossierConfig, LennardConfig, LetterExpressConfig,
    LetterServiceConfig, NangoZohoConfig, OpenAIConfig, PDFServiceConfig, RawConfig,
    TelegramConfig};
use lennard_workflow::dispatch::prepare_letter_dispatch;
use lennard_workflow::errors::LennardError;
use lennard_workflow::notify::{generate_approve_callback, generate_reject_callback};
use lennard_workflow::render::PDFService;
use lennard_workflow::steps::{DossierClient, LetterServiceClient};
use lennard_workflow::types::{LetterExpressRequest, MailingAddress, PrintColor, PrintMode,
    ShippingType};

fn openai_config() -> OpenAIConfig {
    OpenAIConfig { api_key: "key".to_string(), model: "gpt-3.5-turbo".to_string(), base_url: None }
}

#[test]
fn test_callback_generation_matches_python_bot_format() {
    // Test that the callback functions generate the correct format
    // that the approval bot expects
    let approval_id = "test-123-456";

    // Test approve callback
    let approve_callback = generate_approve_callback(approval_id);
    assert_eq!(approve_callback, "approve_workflow_test-123-456");
    assert!(approve_callback.starts_with("approve_workflow_"));

    // Test reject callback
    let reject_callback = generate_reject_callback(approval_id);
    assert_eq!(reject_callback, "reject_workflow_test-123-456");
    assert!(reject_callback.starts_with("reject_workflow_"));
}

#[test]
fn test_callback_generation_with_uuid() {
    // Test with a real UUID format like production uses
    let approval_id = "2b4282ed-3bab-4aac-b7ab-320ecd461518";

    let approve_callback = generate_approve_callback(approval_id);
    assert_eq!(approve_callback, "approve_workflow_2b4282ed-3bab-4aac-b7ab-320ecd461518");

    let reject_callback = generate_reject_callback(approval_id);
    assert_eq!(reject_callback, "reject_workflow_2b4282ed-3bab-4aac-b7ab-320ecd461518");
}

#[test]
fn test_pdf_service_creation() {
    let config = PDFServiceConfig { base_url: "http://localhost:8000".to_string() };

    let service = PDFService::new(config.clone());
    assert_eq!(service.config.base_url, "http://localhost:8000");
}

#[test]
fn test_validate_pdf_with_valid_data() {
    let config = PDFServiceConfig { base_url: "http://localhost:8000".to_string() };
    let service = PDFService::new(config);

    // Valid PDF starts with %PDF
    let valid_pdf = b"%PDF-1.4\n...rest of pdf...";
    assert!(service.validate_pdf(valid_pdf).unwrap());
}

#[test]
fn test_validate_pdf_with_invalid_data() {
    let config = PDFServiceConfig { base_url: "http://localhost:8000".to_string() };
    let service = PDFService::new(config);

    // Invalid PDF data
    let invalid_pdf = b"Not a PDF file";
    assert!(!service.validate_pdf(invalid_pdf).unwrap());
}

#[test]
fn test_validate_pdf_with_empty_data() {
    let config = PDFServiceConfig { base_url: "http://localhost:8000".to_string() };
    let service = PDFService::new(config);

    // Empty data
    let empty_data = b"";
    assert!(!service.validate_pdf(empty_data).unwrap());
}

#[test]
fn test_validate_pdf_with_short_data() {
    let config = PDFServiceConfig { base_url: "http://localhost:8000".to_string() };
    let service = PDFService::new(config);

    // Too short to be a PDF
    let short_data = b"AB";
    assert!(!service.validate_pdf(short_data).unwrap());
}

#[test]
fn test_prepare_letter_dispatch() {
    let request = LetterExpressRequest {
        pdf_data: b"%PDF-1.4 sample".to_vec(),
        recipient_address: MailingAddress {
            street: "Main St 1".to_string(),
            city: "Berlin".to_string(),
            state: None,
            postal_code: "10115".to_string(),
            country: "Germany".to_string(),
        },
        sender_address: MailingAddress {
            street: "Example Street 123".to_string(),
            city: "Example City".to_string(),
            state: Some("Example State".to_string()),
            postal_code: "12345".to_string(),
            country: "Germany".to_string(),
        },
        color: PrintColor::Color,
        mode: PrintMode::Duplex,
        shipping: ShippingType::Standard,
    };

    let prepared = prepare_letter_dispatch(&request);

    // The encoding is the standard base64 of the document bytes.
    let expected_b64 = base64::engine::general_purpose::STANDARD.encode(&request.pdf_data);
    assert_eq!(prepared.base64_file, expected_b64);

    // The checksum is the lowercase hex MD5 of that encoding.
    let expected_md5 = format!("{:x}", md5::compute(expected_b64.as_bytes()));
    assert_eq!(prepared.base64_file_checksum, expected_md5);
    assert_eq!(prepared.base64_file_checksum.len(), 32);

    assert_eq!(prepared.color, "4");
    assert_eq!(prepared.mode, "duplex");
    assert_eq!(prepared.shipping, "national");
}

#[test]
fn test_prepare_letter_dispatch_black_white_simplex() {
    let request = LetterExpressRequest {
        pdf_data: vec![1, 2, 3],
        recipient_address: MailingAddress {
            street: "A".to_string(),
            city: "B".to_string(),
            state: None,
            postal_code: "C".to_string(),
            country: "D".to_string(),
        },
        sender_address: MailingAddress {
            street: "A".to_string(),
            city: "B".to_string(),
            state: None,
            postal_code: "C".to_string(),
            country: "D".to_string(),
        },
        color: PrintColor::BlackWhite,
        mode: PrintMode::Simplex,
        shipping: ShippingType::Express,
    };
    let prepared = prepare_letter_dispatch(&request);
    assert_eq!(prepared.color, "1");
    assert_eq!(prepared.mode, "simplex");
    assert_eq!(prepared.shipping, "international");
}

#[test]
fn test_address_extractor() {
    let extractor = AddressExtractor::new(openai_config());

    let text = "Musterstrasse 12\nBerlin 10115\nGermany";
    let address = extractor.extract_address(text).unwrap().unwrap();
    assert_eq!(address.street, "Musterstrasse 12");
    assert_eq!(address.postal_code, "10115");
    assert_eq!(address.city, "Unknown");
    assert_eq!(address.country, "Germany");

    // Too few lines
    assert!(extractor.extract_address("only\ntwo lines").unwrap().is_none());
    // No postal code
    assert!(extractor.extract_address("a street\na city\na country").unwrap().is_none());
}

#[test]
fn test_validate_german_postal_code() {
    let extractor = AddressExtractor::new(openai_config());
    assert!(extractor.validate_german_postal_code("10115"));
    assert!(extractor.validate_german_postal_code("code 10115 inside"));
    assert!(!extractor.validate_german_postal_code("1234"));
    assert!(!extractor.validate_german_postal_code("123456"));
    assert!(!extractor.validate_german_postal_code("no digits"));
}

#[test]
fn test_config_defaults() {
    assert_eq!(default_letterexpress_mode(), "test");
    assert_eq!(default_zoho_base_url(), "https://www.zohoapis.com");
    assert_eq!(default_pdf_service().base_url, "http://localhost:8000");
    let dossier = default_dossier();
    assert_eq!(dossier.grpc_host, "localhost");
    assert_eq!(dossier.grpc_port, 50052);
}

fn raw_config(baserow_key: &str, nango_key: &str, openai_key: &str, bot_token: &str) -> RawConfig {
    RawConfig {
        baserow: BaserowConfig {
            api_key: baserow_key.to_string(),
            base_url: "https://baserow.example".to_string(),
            table_id: 1,
        },
        nango_zoho_lennard: NangoZohoConfig {
            api_key: nango_key.to_string(),
            connection_id: "conn-1".to_string(),
            integration_id: "zoho".to_string(),
            user_id: "user-1".to_string(),
        },
        letterexpress: LetterExpressConfig {
            api_key: "lk".to_string(),
            username: "user".to_string(),
            base_url: "https://letterexpress.example/v3".to_string(),
            mode: default_letterexpress_mode(),
        },
        openai: OpenAIConfig {
            api_key: openai_key.to_string(),
            model: "gpt-4".to_string(),
            base_url: None,
        },
        telegram: TelegramConfig { bot_token: bot_token.to_string(), chat_id: "42".to_string() },
        pdf_service: default_pdf_service(),
        dossier: default_dossier(),
    }
}

#[test]
fn test_config_maps_nango_to_zoho() {
    let config = LennardConfig::from_raw_config(raw_config("bk", "nk", "ok", "tk"));
    assert_eq!(config.zoho.nango_api_key, "nk");
    assert_eq!(config.zoho.nango_connection_id, "conn-1");
    assert_eq!(config.zoho.nango_integration_id, "zoho");
    assert_eq!(config.zoho.base_url, "https://www.zohoapis.com");
}

#[test]
fn test_validate_config() {
    let good = LennardConfig::from_raw_config(raw_config("bk", "nk", "ok", "tk"));
    assert!(good.validate().is_ok());

    let no_baserow = LennardConfig::from_raw_config(raw_config("", "nk", "ok", "tk"));
    assert!(matches!(no_baserow.validate(), Err(LennardError::Config(_))));

    let no_nango = LennardConfig::from_raw_config(raw_config("bk", "", "ok", "tk"));
    assert!(matches!(no_nango.validate(), Err(LennardError::Config(_))));

    let no_openai = LennardConfig::from_raw_config(raw_config("bk", "nk", "", "tk"));
    assert!(matches!(no_openai.validate(), Err(LennardError::Config(_))));

    let no_telegram = LennardConfig::from_raw_config(raw_config("bk", "nk", "ok", ""));
    assert!(matches!(no_telegram.validate(), Err(LennardError::Config(_))));
}

#[test]
fn test_client_endpoints() {
    let dossier = DossierClient::new(DossierConfig {
        grpc_host: "localhost".to_string(),
        grpc_port: 50052,
    });
    assert_eq!(dossier.grpc_url, "http://localhost:50052");

    let letters = LetterServiceClient::new(LetterServiceConfig {
        grpc_host: "letters.internal".to_string(),
        grpc_port: 7001,
    });
    assert_eq!(letters.grpc_url, "http://letters.internal:7001");
}

#[test]
fn test_letter_generator_prompt() {
    let generator = lennard_workflow::letters::LetterGenerator::new(openai_config());
    let contact = lennard_workflow::types::ZohoContact {
        id: "c-1".to_string(),
        full_name: "Jane Smith".to_string(),
        email: None,
        phone: None,
        company: Some("Acme".to_string()),
        linkedin_id: None,
        mailing_address: None,
    };
    let profile = lennard_workflow::types::LinkedInProfile {
        profile_id: "p-1".to_string(),
        profile_url: "https://linkedin.example/in/jane".to_string(),
        full_name: "Jane Smith".to_string(),
        headline: Some("CTO at Acme".to_string()),
        location: None,
        company: Some("Acme".to_string()),
    };
    let prompt = generator.build_prompt(&contact, &profile, Some("Makes anvils"));
    assert!(prompt.starts_with("Generate a personalized business letter for:\nName: Jane Smith"));
    assert!(prompt.contains("\nCompany: Acme\n"));
    assert!(prompt.contains("\nLinkedIn Profile: CTO at Acme\n"));
    assert!(prompt.contains("Makes anvils"));

    // Absent fields fall back to neutral words.
    let bare_contact = lennard_workflow::types::ZohoContact { company: None, ..contact.clone() };
    let bare_profile = lennard_workflow::types::LinkedInProfile { headline: None, ..profile.clone() };
    let prompt = generator.build_prompt(&bare_contact, &bare_profile, None);
    assert!(prompt.contains("\nCompany: Unknown\n"));
    assert!(prompt.contains("\nLinkedIn Profile: Professional\n"));
}

#[test]
fn test_letter_generator_parse() {
    let generator = lennard_workflow::letters::LetterGenerator::new(openai_config());
    let contact = lennard_workflow::types::ZohoContact {
        id: "c-1".to_string(),
        full_name: "Jane Smith".to_string(),
        email: None,
        phone: None,
        company: Some("Acme".to_string()),
        linkedin_id: None,
        mailing_address: None,
    };
    let letter = generator.parse_letter_content("The generated text.", &contact).unwrap();
    assert_eq!(letter.subject, "Geschäftliche Anfrage");
    assert_eq!(letter.greeting, "Sehr geehrte Damen und Herren,");
    assert_eq!(letter.body, "The generated text.");
    assert_eq!(letter.sender_name, "Ihr Lennard Team");
    assert_eq!(letter.recipient_name, "Jane Smith");
    assert_eq!(letter.company_name, "Acme");
}

#[test]
fn test_classify_render_error() {
    let service = PDFService::new(PDFServiceConfig { base_url: "http://localhost:8000".to_string() });

    // A page-limit violation with a reported count.
    let detail = "Document exceeds one page limit (generated 3 pages). Please reduce content length.";
    match service.classify_render_error(true, detail) {
        Some(LennardError::PageLimitExceeded { page_count, limit, message }) => {
            assert_eq!(page_count, 3);
            assert_eq!(limit, 1);
            assert_eq!(message, detail);
        },
        other => panic!("expected a page limit error, got {:?}", other.is_some()),
    }

    // A page-limit violation without a parsable count assumes two pages.
    match service.classify_render_error(true, "Document exceeds the page budget") {
        Some(LennardError::PageLimitExceeded { page_count, .. }) => assert_eq!(page_count, 2),
        other => panic!("expected a page limit error, got {:?}", other.is_some()),
    }

    // Not a bad request, or unrelated detail: no classification.
    assert!(service.classify_render_error(false, detail).is_none());
    assert!(service.classify_render_error(true, "internal renderer fault").is_none());
}
