//! The engine handle, and what it decides around each call into the native
//! engine.
//!
//! Every operation has two halves here. The first puts the text arguments in
//! null-terminated form and refuses the operation where one of them cannot
//! be; a request exists only if all of them could. The second says what the
//! engine's answer means. The native call between the two is made by the
//! owner of the instance, with the request in hand.

use crate::error::TranslatorError;
use crate::marshal::{has_nul, read_c_text, text_of, until_nul, CText};
use crate::model::ModelFiles;
use vstd::prelude::*;
use vstd::string::StringExecFns;
use vstd::utf8::encode_utf8;

verus! {

/// The native call that loads a model: the instance to call and the
/// arguments.
#[derive(Debug)]
pub struct LoadModelRequest<'a, H> {
    pub instance: &'a H,
    pub language_pair: CText,
    pub config: CText,
}

/// The native call that asks whether a language pair is supported: the
/// instance to call and the arguments.
#[derive(Debug)]
pub struct SupportQuery<'a, H> {
    pub instance: &'a H,
    pub from_lang: CText,
    pub to_lang: CText,
}

/// The native call that translates a text: the instance to call and the
/// arguments.
#[derive(Debug)]
pub struct TranslationRequest<'a, H> {
    pub instance: &'a H,
    pub from_lang: CText,
    pub to_lang: CText,
    pub input_text: CText,
}

/// The handle of one native engine instance of type `H`.
///
/// A handle exists only for an instance that the engine's factory did hand
/// out, and it is the only source of requests. A request borrows the
/// instance from its handle, so none is left once the handle is given up:
/// before creation and after disposal nothing can be asked of the engine.
pub struct Translator<H> {
    instance: H,
}

/// The null-terminated form of `text`, or the refusal of its bytes.
fn marshal(text: &str) -> (result: Result<CText, TranslatorError>)
    ensures
        result is Ok <==> !has_nul(encode_utf8(text@)),
        result matches Ok(c_text) ==> c_text@ == encode_utf8(text@),
        result matches Err(error) ==> error.refuses(encode_utf8(text@)),
{
    match CText::new(text) {
        Ok(c_text) => Ok(c_text),
        Err(error) => Err(TranslatorError::from(error)),
    }
}

impl<H> Translator<H> {
    /// The instance that this handle owns.
    pub closed spec fn native(&self) -> H {
        self.instance
    }

    /// The handle of what the engine's factory handed back: creation fails
    /// where the factory handed back no instance.
    pub fn new(instance: Option<H>) -> (result: Result<Translator<H>, TranslatorError>)
        ensures
            match instance {
                Some(native) => result matches Ok(translator) && translator.native() == native,
                None => result matches Err(error) && error
                    == TranslatorError::TranslatorCreationFailed,
            },
    {
        match instance {
            Some(instance) => Ok(Translator { instance }),
            None => Err(TranslatorError::TranslatorCreationFailed),
        }
    }

    /// Disposal: gives the handle up and hands out the instance, which is
    /// then to be destroyed.
    pub fn into_instance(self) -> (instance: H)
        ensures
            instance == self.native(),
    {
        self.instance
    }

    /// Prepares the loading of `model` for `language_pair`.
    ///
    /// The language pair is marshaled first, then the configuration document
    /// of the model; the first of them that holds a null byte is refused. A
    /// model with an empty slot is refused after that. Nothing tells whether
    /// the engine then loads the model: the native call returns nothing.
    pub fn load_model<'a>(&'a self, language_pair: &str, model: ModelFiles) -> (result: Result<
        LoadModelRequest<'a, H>,
        TranslatorError,
    >)
        ensures
            has_nul(encode_utf8(language_pair@)) || has_nul(encode_utf8(model@.config_text()))
                ==> result matches Err(TranslatorError::StringConversion(_)),
            result is Ok <==> !has_nul(encode_utf8(language_pair@)) && !has_nul(
                encode_utf8(model@.config_text()),
            ) && model@.is_complete(),
            result matches Ok(request) ==> *request.instance == self.native()
                && request.language_pair@ == encode_utf8(language_pair@) && request.config@
                == encode_utf8(model@.config_text()),
            result matches Err(error) ==> if has_nul(encode_utf8(language_pair@)) {
                error.refuses(encode_utf8(language_pair@))
            } else if has_nul(encode_utf8(model@.config_text())) {
                error.refuses(encode_utf8(model@.config_text()))
            } else {
                error == TranslatorError::IncompleteModel
            },
    {
        let language_pair = marshal(language_pair)?;
        let complete = model.is_complete();
        let config_text = model.to_config();
        let config = marshal(config_text.as_str())?;
        if !complete {
            return Err(TranslatorError::IncompleteModel);
        }
        Ok(LoadModelRequest { instance: &self.instance, language_pair, config })
    }

    /// Prepares the question whether the engine can take text in `from_lang`
    /// to `to_lang`. The first of the two codes that holds a null byte is
    /// refused.
    pub fn is_supported<'a>(&'a self, from_lang: &str, to_lang: &str) -> (result: Result<
        SupportQuery<'a, H>,
        TranslatorError,
    >)
        ensures
            has_nul(encode_utf8(from_lang@)) || has_nul(encode_utf8(to_lang@)) ==> result matches Err(
                TranslatorError::StringConversion(_),
            ),
            result is Ok <==> !has_nul(encode_utf8(from_lang@)) && !has_nul(
                encode_utf8(to_lang@),
            ),
            result matches Ok(query) ==> *query.instance == self.native() && query.from_lang@
                == encode_utf8(from_lang@) && query.to_lang@ == encode_utf8(to_lang@),
            result matches Err(error) ==> if has_nul(encode_utf8(from_lang@)) {
                error.refuses(encode_utf8(from_lang@))
            } else {
                error.refuses(encode_utf8(to_lang@))
            },
    {
        let from_lang = marshal(from_lang)?;
        let to_lang = marshal(to_lang)?;
        Ok(SupportQuery { instance: &self.instance, from_lang, to_lang })
    }

    /// Prepares the request to translate `input_text`, which is in
    /// `from_lang`, into `to_lang`. The first of the three texts that holds a
    /// null byte is refused.
    pub fn translate<'a>(
        &'a self,
        from_lang: &str,
        to_lang: &str,
        input_text: &str,
    ) -> (result: Result<TranslationRequest<'a, H>, TranslatorError>)
        ensures
            has_nul(encode_utf8(from_lang@)) || has_nul(encode_utf8(to_lang@)) || has_nul(
                encode_utf8(input_text@),
            ) ==> result matches Err(TranslatorError::StringConversion(_)),
            result is Ok <==> !has_nul(encode_utf8(from_lang@)) && !has_nul(encode_utf8(to_lang@))
                && !has_nul(encode_utf8(input_text@)),
            result matches Ok(request) ==> *request.instance == self.native()
                && request.from_lang@ == encode_utf8(from_lang@) && request.to_lang@
                == encode_utf8(to_lang@) && request.input_text@ == encode_utf8(input_text@),
            result matches Err(error) ==> if has_nul(encode_utf8(from_lang@)) {
                error.refuses(encode_utf8(from_lang@))
            } else if has_nul(encode_utf8(to_lang@)) {
                error.refuses(encode_utf8(to_lang@))
            } else {
                error.refuses(encode_utf8(input_text@))
            },
    {
        let from_lang = marshal(from_lang)?;
        let to_lang = marshal(to_lang)?;
        let input_text = marshal(input_text)?;
        Ok(TranslationRequest { instance: &self.instance, from_lang, to_lang, input_text })
    }

    /// What the engine's answer to a translation request means. `reply` is
    /// the buffer it returned, or `None` where it returned none, as it does
    /// for a language pair that was never loaded. A buffer always yields a
    /// text: the bytes before its first null byte, decoded leniently.
    pub fn translation(&self, reply: Option<&[u8]>) -> (result: Result<String, TranslatorError>)
        ensures
            match reply {
                Some(buffer) => result matches Ok(text) && text@ == text_of(until_nul(buffer@)),
                None => result matches Err(TranslatorError::TranslationFailed(reason)) && reason@
                    == "null pointer returned"@,
            },
    {
        match reply {
            Some(buffer) => Ok(read_c_text(buffer)),
            None => Err(
                TranslatorError::TranslationFailed(String::from_str("null pointer returned")),
            ),
        }
    }
}

} // verus!
