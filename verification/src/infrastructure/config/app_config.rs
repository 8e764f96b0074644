//! The configuration of the program, made from the values of its
//! environment variables.

use vstd::prelude::*;
use vstd::string::*;
use crate::numbers::{numbers_of, parse_i64_list, parse_u32, split_on, u32_of};
use crate::text::{clone_opt_text, opt_text};

verus! {

/// The values of the environment variables that the program reads; `None`
/// for a variable that is not set.
#[derive(Debug)]
pub struct Environment {
    pub telegram_bot_token: Option<String>,
    pub telegram_allowed_user_ids: Option<String>,
    pub database_path: Option<String>,
    pub database_max_connections: Option<String>,
    pub fizzy_account_id: Option<String>,
    pub fizzy_user_id: Option<String>,
    pub fizzy_default_board_id: Option<String>,
    pub fizzy_base_url: Option<String>,
}

/// What an environment holds, as plain values.
pub struct EnvironmentView {
    pub telegram_bot_token: Option<Seq<char>>,
    pub telegram_allowed_user_ids: Option<Seq<char>>,
    pub database_path: Option<Seq<char>>,
    pub database_max_connections: Option<Seq<char>>,
    pub fizzy_account_id: Option<Seq<char>>,
    pub fizzy_user_id: Option<Seq<char>>,
    pub fizzy_default_board_id: Option<Seq<char>>,
    pub fizzy_base_url: Option<Seq<char>>,
}

impl View for Environment {
    type V = EnvironmentView;

    open spec fn view(&self) -> EnvironmentView {
        EnvironmentView {
            telegram_bot_token: opt_text(self.telegram_bot_token),
            telegram_allowed_user_ids: opt_text(self.telegram_allowed_user_ids),
            database_path: opt_text(self.database_path),
            database_max_connections: opt_text(self.database_max_connections),
            fizzy_account_id: opt_text(self.fizzy_account_id),
            fizzy_user_id: opt_text(self.fizzy_user_id),
            fizzy_default_board_id: opt_text(self.fizzy_default_board_id),
            fizzy_base_url: opt_text(self.fizzy_base_url),
        }
    }
}

#[derive(Debug)]
pub struct AppConfig {
    pub telegram: TelegramConfig,
    pub database: DatabaseConfig,
    pub fizzy: FizzyConfig,
}

/// The bot's token and the users that may use the bot.
#[derive(Debug)]
pub struct TelegramConfig {
    pub bot_token: String,
    pub allowed_user_ids: Vec<i64>,
}

/// Where the database is and how many connections to it may be open.
#[derive(Debug)]
pub struct DatabaseConfig {
    pub path: String,
    pub max_connections: u32,
}

/// The account and the user that the bot acts for.
#[derive(Debug)]
pub struct FizzyConfig {
    pub account_id: String,
    pub user_id: String,
    pub default_board_id: String,
    pub base_url: Option<String>,
}

/// What a configuration holds, as plain values.
pub struct AppConfigView {
    pub bot_token: Seq<char>,
    pub allowed_user_ids: Seq<i64>,
    pub path: Seq<char>,
    pub max_connections: u32,
    pub account_id: Seq<char>,
    pub user_id: Seq<char>,
    pub default_board_id: Seq<char>,
    pub base_url: Option<Seq<char>>,
}

impl View for AppConfig {
    type V = AppConfigView;

    open spec fn view(&self) -> AppConfigView {
        AppConfigView {
            bot_token: self.telegram.bot_token@,
            allowed_user_ids: self.telegram.allowed_user_ids@,
            path: self.database.path@,
            max_connections: self.database.max_connections,
            account_id: self.fizzy.account_id@,
            user_id: self.fizzy.user_id@,
            default_board_id: self.fizzy.default_board_id@,
            base_url: opt_text(self.fizzy.base_url),
        }
    }
}

/// The number of connections where the environment names none.
pub const DEFAULT_MAX_CONNECTIONS: u32 = 5;

/// The configuration that an environment gives, or what is wrong with the
/// first variable that is missing or cannot be read: the bot's token, the
/// allowed users, the database's path and connections, then the account, the
/// user and the default board.
pub open spec fn configured(env: EnvironmentView) -> Result<AppConfigView, Seq<char>> {
    if env.telegram_bot_token is None {
        Err("TELEGRAM_BOT_TOKEN not set"@)
    } else if env.telegram_allowed_user_ids is None {
        Err("TELEGRAM_ALLOWED_USER_IDS not set"@)
    } else if numbers_of(split_on(env.telegram_allowed_user_ids->Some_0, ',')) is None {
        Err("Invalid TELEGRAM_ALLOWED_USER_IDS format"@)
    } else if env.database_path is None {
        Err("DATABASE_PATH not set"@)
    } else if env.database_max_connections is Some && u32_of(
        env.database_max_connections->Some_0,
    ) is None {
        Err("Invalid DATABASE_MAX_CONNECTIONS"@)
    } else if env.fizzy_account_id is None {
        Err("FIZZY_ACCOUNT_ID not set"@)
    } else if env.fizzy_user_id is None {
        Err("FIZZY_USER_ID not set"@)
    } else if env.fizzy_default_board_id is None {
        Err("FIZZY_DEFAULT_BOARD_ID not set"@)
    } else {
        Ok(
            AppConfigView {
                bot_token: env.telegram_bot_token->Some_0,
                allowed_user_ids: numbers_of(
                    split_on(env.telegram_allowed_user_ids->Some_0, ','),
                )->Some_0,
                path: env.database_path->Some_0,
                max_connections: match env.database_max_connections {
                    Some(text) => u32_of(text)->Some_0,
                    None => DEFAULT_MAX_CONNECTIONS,
                },
                account_id: env.fizzy_account_id->Some_0,
                user_id: env.fizzy_user_id->Some_0,
                default_board_id: env.fizzy_default_board_id->Some_0,
                base_url: env.fizzy_base_url,
            },
        )
    }
}

impl Clone for TelegramConfig {
    fn clone(&self) -> (r: Self)
        ensures
            r.bot_token@ == self.bot_token@,
            r.allowed_user_ids@ == self.allowed_user_ids@,
    {
        let mut ids: Vec<i64> = Vec::new();
        let mut i: usize = 0;
        while i < self.allowed_user_ids.len()
            invariant
                i <= self.allowed_user_ids.len(),
                ids@ == self.allowed_user_ids@.take(i as int),
            decreases self.allowed_user_ids.len() - i,
        {
            ids.push(self.allowed_user_ids[i]);
            assert(self.allowed_user_ids@.take(i as int).push(self.allowed_user_ids@[i as int])
                =~= self.allowed_user_ids@.take(i + 1));
            i += 1;
        }
        assert(self.allowed_user_ids@.take(i as int) =~= self.allowed_user_ids@);
        TelegramConfig { bot_token: self.bot_token.clone(), allowed_user_ids: ids }
    }
}

impl Clone for DatabaseConfig {
    fn clone(&self) -> (r: Self)
        ensures
            r.path@ == self.path@,
            r.max_connections == self.max_connections,
    {
        DatabaseConfig { path: self.path.clone(), max_connections: self.max_connections }
    }
}

impl Clone for FizzyConfig {
    fn clone(&self) -> (r: Self)
        ensures
            r.account_id@ == self.account_id@,
            r.user_id@ == self.user_id@,
            r.default_board_id@ == self.default_board_id@,
            opt_text(r.base_url) == opt_text(self.base_url),
    {
        FizzyConfig {
            account_id: self.account_id.clone(),
            user_id: self.user_id.clone(),
            default_board_id: self.default_board_id.clone(),
            base_url: clone_opt_text(&self.base_url),
        }
    }
}

impl Clone for AppConfig {
    fn clone(&self) -> (r: Self)
        ensures
            r@ == self@,
    {
        AppConfig {
            telegram: self.telegram.clone(),
            database: self.database.clone(),
            fizzy: self.fizzy.clone(),
        }
    }
}

impl AppConfig {
    /// The configuration that the values of the environment variables give.
    pub fn from_env(env: &Environment) -> (r: Result<Self, String>)
        ensures
            match configured(env@) {
                Ok(config) => r matches Ok(c) && c@ == config,
                Err(message) => r matches Err(m) && m@ == message,
            },
    {
        let bot_token = match &env.telegram_bot_token {
            Some(token) => token.clone(),
            None => {
                return Err(String::from_str("TELEGRAM_BOT_TOKEN not set"));
            },
        };
        let listed = match &env.telegram_allowed_user_ids {
            Some(text) => text,
            None => {
                return Err(String::from_str("TELEGRAM_ALLOWED_USER_IDS not set"));
            },
        };
        let allowed_user_ids = match parse_i64_list(listed.as_str()) {
            Some(ids) => ids,
            None => {
                return Err(String::from_str("Invalid TELEGRAM_ALLOWED_USER_IDS format"));
            },
        };
        let path = match &env.database_path {
            Some(path) => path.clone(),
            None => {
                return Err(String::from_str("DATABASE_PATH not set"));
            },
        };
        let max_connections = match &env.database_max_connections {
            Some(text) => match parse_u32(text.as_str()) {
                Some(n) => n,
                None => {
                    return Err(String::from_str("Invalid DATABASE_MAX_CONNECTIONS"));
                },
            },
            None => DEFAULT_MAX_CONNECTIONS,
        };
        let account_id = match &env.fizzy_account_id {
            Some(id) => id.clone(),
            None => {
                return Err(String::from_str("FIZZY_ACCOUNT_ID not set"));
            },
        };
        let user_id = match &env.fizzy_user_id {
            Some(id) => id.clone(),
            None => {
                return Err(String::from_str("FIZZY_USER_ID not set"));
            },
        };
        let default_board_id = match &env.fizzy_default_board_id {
            Some(id) => id.clone(),
            None => {
                return Err(String::from_str("FIZZY_DEFAULT_BOARD_ID not set"));
            },
        };
        Ok(
            AppConfig {
                telegram: TelegramConfig { bot_token, allowed_user_ids },
                database: DatabaseConfig { path, max_connections },
                fizzy: FizzyConfig {
                    account_id,
                    user_id,
                    default_board_id,
                    base_url: clone_opt_text(&env.fizzy_base_url),
                },
            },
        )
    }
}

impl TelegramConfig {
    /// Whether a user is one of those that may use the bot.
    pub fn is_user_allowed(&self, user_id: i64) -> (r: bool)
        ensures
            r == self.allowed_user_ids@.contains(user_id),
    {
        let mut i: usize = 0;
        while i < self.allowed_user_ids.len()
            invariant
                i <= self.allowed_user_ids.len(),
                forall|j: int| 0 <= j < i ==> self.allowed_user_ids@[j] != user_id,
            decreases self.allowed_user_ids.len() - i,
        {
            if self.allowed_user_ids[i] == user_id {
                return true;
            }
            i += 1;
        }
        false
    }
}

impl DatabaseConfig {
    /// The address under which the database is opened, for reading only.
    pub fn connection_string(&self) -> (r: String)
        ensures
            r@ == "sqlite://"@ + self.path@ + "?mode=ro"@,
    {
        let mut out = String::from_str("sqlite://");
        out.append(self.path.as_str());
        out.append("?mode=ro");
        out
    }
}

} // verus!
