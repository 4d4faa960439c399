//! Configuration for the workflow system and its collaborator clients.
//!
//! Reading the credentials file is the surrounding process's concern; here
//! live the structured settings, the defaults, the raw-to-structured mapping
//! and the validation rules.

use vstd::prelude::*;

verus! {

#[derive(Debug, Clone)]
pub struct BaserowConfig {
    pub api_key: String,
    pub base_url: String,
    pub table_id: i64,
}

#[derive(Debug, Clone)]
pub struct ZohoConfig {
    pub nango_api_key: String,
    pub nango_connection_id: String,
    pub nango_integration_id: String,
    pub nango_user_id: String,
    pub base_url: String,
}

#[derive(Debug, Clone)]
pub struct LetterExpressConfig {
    pub api_key: String,
    pub username: String,
    pub base_url: String,
    pub mode: String,
}

#[derive(Debug, Clone)]
pub struct OpenAIConfig {
    pub api_key: String,
    pub model: String,
    pub base_url: Option<String>,
}

#[derive(Debug, Clone)]
pub struct TelegramConfig {
    pub bot_token: String,
    pub chat_id: String,
}

#[derive(Debug, Clone)]
pub struct PDFServiceConfig {
    pub base_url: String,
}

#[derive(Debug, Clone)]
pub struct DossierConfig {
    pub grpc_host: String,
    pub grpc_port: u16,
}

#[derive(Debug, Clone)]
pub struct LetterServiceConfig {
    pub grpc_host: String,
    pub grpc_port: u16,
}

/// The dispatch mode a fresh `LetterExpressConfig` gets when the credentials
/// file names none: the test mode, never live dispatch.
pub fn default_letterexpress_mode() -> (r: String)
    ensures
        r@ == "test"@,
{
    String::from_str("test")
}

pub fn default_dossier_grpc_host() -> (r: String)
    ensures
        r@ == "localhost"@,
{
    String::from_str("localhost")
}

pub fn default_dossier_grpc_port() -> (r: u16)
    ensures
        r == 50052,
{
    50052
}

pub fn default_pdf_service() -> (r: PDFServiceConfig)
    ensures
        r.base_url@ == "http://localhost:8000"@,
{
    PDFServiceConfig { base_url: String::from_str("http://localhost:8000") }
}

pub fn default_dossier() -> (r: DossierConfig)
    ensures
        r.grpc_host@ == "localhost"@,
        r.grpc_port == 50052,
{
    DossierConfig { grpc_host: default_dossier_grpc_host(), grpc_port: default_dossier_grpc_port() }
}

pub fn default_zoho_base_url() -> (r: String)
    ensures
        r@ == "https://www.zohoapis.com"@,
{
    String::from_str("https://www.zohoapis.com")
}

/// The raw shape of the credentials file, before field mapping.
#[derive(Debug)]
pub struct NangoZohoConfig {
    pub api_key: String,
    pub connection_id: String,
    pub integration_id: String,
    pub user_id: String,
}

/// The credentials file as read: the CRM comes as a Nango connection, the
/// rest maps one to one.
#[derive(Debug)]
pub struct RawConfig {
    pub baserow: BaserowConfig,
    pub nango_zoho_lennard: NangoZohoConfig,
    pub letterexpress: LetterExpressConfig,
    pub openai: OpenAIConfig,
    pub telegram: TelegramConfig,
    pub pdf_service: PDFServiceConfig,
    pub dossier: DossierConfig,
}

/// Main configuration structure.
#[derive(Debug, Clone)]
pub struct LennardConfig {
    pub baserow: BaserowConfig,
    pub zoho: ZohoConfig,
    pub letterexpress: LetterExpressConfig,
    pub openai: OpenAIConfig,
    pub telegram: TelegramConfig,
    pub pdf_service: PDFServiceConfig,
    pub dossier: DossierConfig,
}

impl LennardConfig {
    /// Map the raw credentials into the structured config: the Nango
    /// connection fields become the CRM settings, with the default CRM base
    /// URL.
    pub fn from_raw_config(raw: RawConfig) -> (r: Self)
        ensures
            r.zoho.nango_api_key@ == raw.nango_zoho_lennard.api_key@,
            r.zoho.nango_connection_id@ == raw.nango_zoho_lennard.connection_id@,
            r.zoho.nango_integration_id@ == raw.nango_zoho_lennard.integration_id@,
            r.zoho.nango_user_id@ == raw.nango_zoho_lennard.user_id@,
            r.zoho.base_url@ == "https://www.zohoapis.com"@,
            r.baserow.api_key@ == raw.baserow.api_key@,
            r.openai.api_key@ == raw.openai.api_key@,
            r.telegram.bot_token@ == raw.telegram.bot_token@,
    {
        let nango = raw.nango_zoho_lennard;
        let zoho = ZohoConfig {
            nango_api_key: nango.api_key,
            nango_connection_id: nango.connection_id,
            nango_integration_id: nango.integration_id,
            nango_user_id: nango.user_id,
            base_url: default_zoho_base_url(),
        };
        LennardConfig {
            baserow: raw.baserow,
            zoho,
            letterexpress: raw.letterexpress,
            openai: raw.openai,
            telegram: raw.telegram,
            pdf_service: raw.pdf_service,
            dossier: raw.dossier,
        }
    }

    /// The settings without which no collaborator can be reached.
    pub open spec fn spec_valid(self) -> bool {
        &&& self.baserow.api_key@.len() > 0
        &&& self.zoho.nango_api_key@.len() > 0
        &&& self.zoho.nango_connection_id@.len() > 0
        &&& self.openai.api_key@.len() > 0
        &&& self.telegram.bot_token@.len() > 0
    }

    /// Validate the configuration: every required credential must be
    /// non-empty, and a missing one is reported as a configuration error.
    pub fn validate(&self) -> (r: crate::errors::Result<()>)
        ensures
            r is Ok <==> self.spec_valid(),
            r matches Err(e) ==> e matches crate::errors::LennardError::Config(_),
    {
        if self.baserow.api_key.as_str().unicode_len() == 0 {
            return Err(
                crate::errors::LennardError::Config(
                    String::from_str("Baserow API key is required"),
                ),
            );
        }
        if self.zoho.nango_api_key.as_str().unicode_len() == 0
            || self.zoho.nango_connection_id.as_str().unicode_len() == 0 {
            return Err(
                crate::errors::LennardError::Config(
                    String::from_str(
                        "Zoho Nango authentication is required (api_key + connection_id)",
                    ),
                ),
            );
        }
        if self.openai.api_key.as_str().unicode_len() == 0 {
            return Err(
                crate::errors::LennardError::Config(
                    String::from_str("OpenAI API key is required"),
                ),
            );
        }
        if self.telegram.bot_token.as_str().unicode_len() == 0 {
            return Err(
                crate::errors::LennardError::Config(
                    String::from_str("Telegram bot token is required"),
                ),
            );
        }
        Ok(())
    }
}

} // verus!
