//! The member names and type names of the wire form, told apart.
use vstd::prelude::*;

verus! {

/// A number for each member name and each type name of the wire form, each
/// with a number of its own; 0 for any other text.
pub closed spec fn name_code(s: Seq<char>) -> int {
    if s == "modelType"@ {
        1
    } else if s == "type"@ {
        2
    } else if s == "value"@ {
        3
    } else if s == "language"@ {
        4
    } else if s == "text"@ {
        5
    } else if s == "path"@ {
        6
    } else if s == "contentType"@ {
        7
    } else if s == "kind"@ {
        8
    } else if s == "valueType"@ {
        9
    } else if s == "valueId"@ {
        10
    } else if s == "semanticId"@ {
        11
    } else if s == "supplementalSemanticIds"@ {
        12
    } else if s == "name"@ {
        13
    } else if s == "refersTo"@ {
        14
    } else if s == "externalSubjectId"@ {
        15
    } else if s == "version"@ {
        16
    } else if s == "revision"@ {
        17
    } else if s == "creator"@ {
        18
    } else if s == "templateId"@ {
        19
    } else if s == "embeddedDataSpecifications"@ {
        20
    } else if s == "assetKind"@ {
        21
    } else if s == "globalAssetId"@ {
        22
    } else if s == "specificAssetIds"@ {
        23
    } else if s == "assetType"@ {
        24
    } else if s == "defaultThumbnail"@ {
        25
    } else if s == "category"@ {
        26
    } else if s == "idShort"@ {
        27
    } else if s == "displayName"@ {
        28
    } else if s == "description"@ {
        29
    } else if s == "qualifiers"@ {
        30
    } else if s == "min"@ {
        31
    } else if s == "max"@ {
        32
    } else if s == "extensions"@ {
        33
    } else if s == "first"@ {
        34
    } else if s == "second"@ {
        35
    } else if s == "annotations"@ {
        36
    } else if s == "statements"@ {
        37
    } else if s == "entityType"@ {
        38
    } else if s == "inputVariables"@ {
        39
    } else if s == "outputVariables"@ {
        40
    } else if s == "inoutputVariables"@ {
        41
    } else if s == "observed"@ {
        42
    } else if s == "direction"@ {
        43
    } else if s == "state"@ {
        44
    } else if s == "messageTopic"@ {
        45
    } else if s == "messageBroker"@ {
        46
    } else if s == "lastUpdate"@ {
        47
    } else if s == "minInterval"@ {
        48
    } else if s == "maxInterval"@ {
        49
    } else if s == "orderRelevant"@ {
        50
    } else if s == "semanticIdListElement"@ {
        51
    } else if s == "typeValueListElement"@ {
        52
    } else if s == "valueTypeListElement"@ {
        53
    } else if s == "submodelElements"@ {
        54
    } else if s == "administration"@ {
        55
    } else if s == "id"@ {
        56
    } else if s == "derivedFrom"@ {
        57
    } else if s == "assetInformation"@ {
        58
    } else if s == "submodels"@ {
        59
    } else if s == "isCaseOf"@ {
        60
    } else if s == "assetAdministrationShells"@ {
        61
    } else if s == "conceptDescriptions"@ {
        62
    } else if s == "keys"@ {
        63
    } else if s == "referredSemanticId"@ {
        64
    } else if s == "Property"@ {
        65
    } else if s == "MultiLanguageProperty"@ {
        66
    } else if s == "Range"@ {
        67
    } else if s == "Blob"@ {
        68
    } else if s == "File"@ {
        69
    } else if s == "ReferenceElement"@ {
        70
    } else if s == "RelationshipElement"@ {
        71
    } else if s == "AnnotatedRelationshipElement"@ {
        72
    } else if s == "Capability"@ {
        73
    } else if s == "SubmodelElementList"@ {
        74
    } else if s == "SubmodelElementCollection"@ {
        75
    } else if s == "Entity"@ {
        76
    } else if s == "BasicEventElement"@ {
        77
    } else if s == "Operation"@ {
        78
    } else if s == "AssetAdministrationShell"@ {
        79
    } else if s == "ConceptDescription"@ {
        80
    } else if s == "Submodel"@ {
        81
    } else if s == "Qualifier"@ {
        82
    } else if s == "Extension"@ {
        83
    } else if s == "SpecificAssetId"@ {
        84
    } else if s == "AdministrativeInformation"@ {
        85
    } else {
        0
    }
}

/// The numbers of the names. Two names with different numbers are different
/// texts: this is how proofs tell the names apart.
pub proof fn lemma_name_codes()
    ensures
        name_code("modelType"@) == 1,
        name_code("type"@) == 2,
        name_code("value"@) == 3,
        name_code("language"@) == 4,
        name_code("text"@) == 5,
        name_code("path"@) == 6,
        name_code("contentType"@) == 7,
        name_code("kind"@) == 8,
        name_code("valueType"@) == 9,
        name_code("valueId"@) == 10,
        name_code("semanticId"@) == 11,
        name_code("supplementalSemanticIds"@) == 12,
        name_code("name"@) == 13,
        name_code("refersTo"@) == 14,
        name_code("externalSubjectId"@) == 15,
        name_code("version"@) == 16,
        name_code("revision"@) == 17,
        name_code("creator"@) == 18,
        name_code("templateId"@) == 19,
        name_code("embeddedDataSpecifications"@) == 20,
        name_code("assetKind"@) == 21,
        name_code("globalAssetId"@) == 22,
        name_code("specificAssetIds"@) == 23,
        name_code("assetType"@) == 24,
        name_code("defaultThumbnail"@) == 25,
        name_code("category"@) == 26,
        name_code("idShort"@) == 27,
        name_code("displayName"@) == 28,
        name_code("description"@) == 29,
        name_code("qualifiers"@) == 30,
        name_code("min"@) == 31,
        name_code("max"@) == 32,
        name_code("extensions"@) == 33,
        name_code("first"@) == 34,
        name_code("second"@) == 35,
        name_code("annotations"@) == 36,
        name_code("statements"@) == 37,
        name_code("entityType"@) == 38,
        name_code("inputVariables"@) == 39,
        name_code("outputVariables"@) == 40,
        name_code("inoutputVariables"@) == 41,
        name_code("observed"@) == 42,
        name_code("direction"@) == 43,
        name_code("state"@) == 44,
        name_code("messageTopic"@) == 45,
        name_code("messageBroker"@) == 46,
        name_code("lastUpdate"@) == 47,
        name_code("minInterval"@) == 48,
        name_code("maxInterval"@) == 49,
        name_code("orderRelevant"@) == 50,
        name_code("semanticIdListElement"@) == 51,
        name_code("typeValueListElement"@) == 52,
        name_code("valueTypeListElement"@) == 53,
        name_code("submodelElements"@) == 54,
        name_code("administration"@) == 55,
        name_code("id"@) == 56,
        name_code("derivedFrom"@) == 57,
        name_code("assetInformation"@) == 58,
        name_code("submodels"@) == 59,
        name_code("isCaseOf"@) == 60,
        name_code("assetAdministrationShells"@) == 61,
        name_code("conceptDescriptions"@) == 62,
        name_code("keys"@) == 63,
        name_code("referredSemanticId"@) == 64,
        name_code("Property"@) == 65,
        name_code("MultiLanguageProperty"@) == 66,
        name_code("Range"@) == 67,
        name_code("Blob"@) == 68,
        name_code("File"@) == 69,
        name_code("ReferenceElement"@) == 70,
        name_code("RelationshipElement"@) == 71,
        name_code("AnnotatedRelationshipElement"@) == 72,
        name_code("Capability"@) == 73,
        name_code("SubmodelElementList"@) == 74,
        name_code("SubmodelElementCollection"@) == 75,
        name_code("Entity"@) == 76,
        name_code("BasicEventElement"@) == 77,
        name_code("Operation"@) == 78,
        name_code("AssetAdministrationShell"@) == 79,
        name_code("ConceptDescription"@) == 80,
        name_code("Submodel"@) == 81,
        name_code("Qualifier"@) == 82,
        name_code("Extension"@) == 83,
        name_code("SpecificAssetId"@) == 84,
        name_code("AdministrativeInformation"@) == 85,
{
    reveal_strlit("modelType");
    reveal_strlit("type");
    reveal_strlit("value");
    reveal_strlit("language");
    reveal_strlit("text");
    reveal_strlit("path");
    reveal_strlit("contentType");
    reveal_strlit("kind");
    reveal_strlit("valueType");
    reveal_strlit("valueId");
    reveal_strlit("semanticId");
    reveal_strlit("supplementalSemanticIds");
    reveal_strlit("name");
    reveal_strlit("refersTo");
    reveal_strlit("externalSubjectId");
    reveal_strlit("version");
    reveal_strlit("revision");
    reveal_strlit("creator");
    reveal_strlit("templateId");
    reveal_strlit("embeddedDataSpecifications");
    reveal_strlit("assetKind");
    reveal_strlit("globalAssetId");
    reveal_strlit("specificAssetIds");
    reveal_strlit("assetType");
    reveal_strlit("defaultThumbnail");
    reveal_strlit("category");
    reveal_strlit("idShort");
    reveal_strlit("displayName");
    reveal_strlit("description");
    reveal_strlit("qualifiers");
    reveal_strlit("min");
    reveal_strlit("max");
    reveal_strlit("extensions");
    reveal_strlit("first");
    reveal_strlit("second");
    reveal_strlit("annotations");
    reveal_strlit("statements");
    reveal_strlit("entityType");
    reveal_strlit("inputVariables");
    reveal_strlit("outputVariables");
    reveal_strlit("inoutputVariables");
    reveal_strlit("observed");
    reveal_strlit("direction");
    reveal_strlit("state");
    reveal_strlit("messageTopic");
    reveal_strlit("messageBroker");
    reveal_strlit("lastUpdate");
    reveal_strlit("minInterval");
    reveal_strlit("maxInterval");
    reveal_strlit("orderRelevant");
    reveal_strlit("semanticIdListElement");
    reveal_strlit("typeValueListElement");
    reveal_strlit("valueTypeListElement");
    reveal_strlit("submodelElements");
    reveal_strlit("administration");
    reveal_strlit("id");
    reveal_strlit("derivedFrom");
    reveal_strlit("assetInformation");
    reveal_strlit("submodels");
    reveal_strlit("isCaseOf");
    reveal_strlit("assetAdministrationShells");
    reveal_strlit("conceptDescriptions");
    reveal_strlit("keys");
    reveal_strlit("referredSemanticId");
    reveal_strlit("Property");
    reveal_strlit("MultiLanguageProperty");
    reveal_strlit("Range");
    reveal_strlit("Blob");
    reveal_strlit("File");
    reveal_strlit("ReferenceElement");
    reveal_strlit("RelationshipElement");
    reveal_strlit("AnnotatedRelationshipElement");
    reveal_strlit("Capability");
    reveal_strlit("SubmodelElementList");
    reveal_strlit("SubmodelElementCollection");
    reveal_strlit("Entity");
    reveal_strlit("BasicEventElement");
    reveal_strlit("Operation");
    reveal_strlit("AssetAdministrationShell");
    reveal_strlit("ConceptDescription");
    reveal_strlit("Submodel");
    reveal_strlit("Qualifier");
    reveal_strlit("Extension");
    reveal_strlit("SpecificAssetId");
    reveal_strlit("AdministrativeInformation");
    assert("modelType"@.len() == 9 && "modelType"@[2] == 'd' && "modelType"@[5] == 'T');
    assert("type"@.len() == 4 && "type"@[2] == 'p');
    assert("value"@.len() == 5 && "value"@[2] == 'l');
    assert("language"@.len() == 8 && "language"@[2] == 'n' && "language"@[5] == 'a');
    assert("text"@.len() == 4 && "text"@[2] == 'x');
    assert("path"@.len() == 4 && "path"@[2] == 't');
    assert("contentType"@.len() == 11 && "contentType"@[2] == 'n' && "contentType"@[5] == 'n');
    assert("kind"@.len() == 4 && "kind"@[2] == 'n');
    assert("valueType"@.len() == 9 && "valueType"@[2] == 'l' && "valueType"@[5] == 'T');
    assert("valueId"@.len() == 7 && "valueId"@[2] == 'l' && "valueId"@[5] == 'I');
    assert("semanticId"@.len() == 10 && "semanticId"@[2] == 'm' && "semanticId"@[5] == 't');
    assert(
        "supplementalSemanticIds"@.len() == 23
            && "supplementalSemanticIds"@[2] == 'p'
            && "supplementalSemanticIds"@[5] == 'e'
    );
    assert("name"@.len() == 4 && "name"@[2] == 'm');
    assert("refersTo"@.len() == 8 && "refersTo"@[2] == 'f' && "refersTo"@[5] == 's');
    assert(
        "externalSubjectId"@.len() == 17
            && "externalSubjectId"@[2] == 't'
            && "externalSubjectId"@[5] == 'n'
    );
    assert("version"@.len() == 7 && "version"@[2] == 'r' && "version"@[5] == 'o');
    assert("revision"@.len() == 8 && "revision"@[2] == 'v' && "revision"@[5] == 'i');
    assert("creator"@.len() == 7 && "creator"@[2] == 'e' && "creator"@[5] == 'o');
    assert("templateId"@.len() == 10 && "templateId"@[2] == 'm' && "templateId"@[5] == 'a');
    assert(
        "embeddedDataSpecifications"@.len() == 26
            && "embeddedDataSpecifications"@[2] == 'b'
            && "embeddedDataSpecifications"@[5] == 'd'
    );
    assert("assetKind"@.len() == 9 && "assetKind"@[2] == 's' && "assetKind"@[5] == 'K');
    assert(
        "globalAssetId"@.len() == 13
            && "globalAssetId"@[2] == 'o'
            && "globalAssetId"@[5] == 'l'
    );
    assert(
        "specificAssetIds"@.len() == 16
            && "specificAssetIds"@[2] == 'e'
            && "specificAssetIds"@[5] == 'f'
    );
    assert("assetType"@.len() == 9 && "assetType"@[2] == 's' && "assetType"@[5] == 'T');
    assert(
        "defaultThumbnail"@.len() == 16
            && "defaultThumbnail"@[2] == 'f'
            && "defaultThumbnail"@[5] == 'l'
    );
    assert("category"@.len() == 8 && "category"@[2] == 't' && "category"@[5] == 'o');
    assert("idShort"@.len() == 7 && "idShort"@[2] == 'S' && "idShort"@[5] == 'r');
    assert("displayName"@.len() == 11 && "displayName"@[2] == 's' && "displayName"@[5] == 'a');
    assert("description"@.len() == 11 && "description"@[2] == 's' && "description"@[5] == 'i');
    assert("qualifiers"@.len() == 10 && "qualifiers"@[2] == 'a' && "qualifiers"@[5] == 'f');
    assert("min"@.len() == 3 && "min"@[2] == 'n');
    assert("max"@.len() == 3 && "max"@[2] == 'x');
    assert("extensions"@.len() == 10 && "extensions"@[2] == 't' && "extensions"@[5] == 's');
    assert("first"@.len() == 5 && "first"@[2] == 'r');
    assert("second"@.len() == 6 && "second"@[2] == 'c' && "second"@[5] == 'd');
    assert("annotations"@.len() == 11 && "annotations"@[2] == 'n' && "annotations"@[5] == 'a');
    assert("statements"@.len() == 10 && "statements"@[2] == 'a' && "statements"@[5] == 'm');
    assert("entityType"@.len() == 10 && "entityType"@[2] == 't' && "entityType"@[5] == 'y');
    assert(
        "inputVariables"@.len() == 14
            && "inputVariables"@[2] == 'p'
            && "inputVariables"@[5] == 'V'
    );
    assert(
        "outputVariables"@.len() == 15
            && "outputVariables"@[2] == 't'
            && "outputVariables"@[5] == 't'
    );
    assert(
        "inoutputVariables"@.len() == 17
            && "inoutputVariables"@[2] == 'o'
            && "inoutputVariables"@[5] == 'p'
    );
    assert("observed"@.len() == 8 && "observed"@[2] == 's' && "observed"@[5] == 'v');
    assert("direction"@.len() == 9 && "direction"@[2] == 'r' && "direction"@[5] == 't');
    assert("state"@.len() == 5 && "state"@[2] == 'a');
    assert("messageTopic"@.len() == 12 && "messageTopic"@[2] == 's' && "messageTopic"@[5] == 'g');
    assert(
        "messageBroker"@.len() == 13
            && "messageBroker"@[2] == 's'
            && "messageBroker"@[5] == 'g'
    );
    assert("lastUpdate"@.len() == 10 && "lastUpdate"@[2] == 's' && "lastUpdate"@[5] == 'p');
    assert("minInterval"@.len() == 11 && "minInterval"@[2] == 'n' && "minInterval"@[5] == 't');
    assert("maxInterval"@.len() == 11 && "maxInterval"@[2] == 'x' && "maxInterval"@[5] == 't');
    assert(
        "orderRelevant"@.len() == 13
            && "orderRelevant"@[2] == 'd'
            && "orderRelevant"@[5] == 'R'
    );
    assert(
        "semanticIdListElement"@.len() == 21
            && "semanticIdListElement"@[2] == 'm'
            && "semanticIdListElement"@[5] == 't'
    );
    assert(
        "typeValueListElement"@.len() == 20
            && "typeValueListElement"@[2] == 'p'
            && "typeValueListElement"@[5] == 'a'
    );
    assert(
        "valueTypeListElement"@.len() == 20
            && "valueTypeListElement"@[2] == 'l'
            && "valueTypeListElement"@[5] == 'T'
    );
    assert(
        "submodelElements"@.len() == 16
            && "submodelElements"@[2] == 'b'
            && "submodelElements"@[5] == 'd'
    );
    assert(
        "administration"@.len() == 14
            && "administration"@[2] == 'm'
            && "administration"@[5] == 'i'
    );
    assert("id"@.len() == 2);
    assert("derivedFrom"@.len() == 11 && "derivedFrom"@[2] == 'r' && "derivedFrom"@[5] == 'e');
    assert(
        "assetInformation"@.len() == 16
            && "assetInformation"@[2] == 's'
            && "assetInformation"@[5] == 'I'
    );
    assert("submodels"@.len() == 9 && "submodels"@[2] == 'b' && "submodels"@[5] == 'd');
    assert("isCaseOf"@.len() == 8 && "isCaseOf"@[2] == 'C' && "isCaseOf"@[5] == 'e');
    assert(
        "assetAdministrationShells"@.len() == 25
            && "assetAdministrationShells"@[2] == 's'
            && "assetAdministrationShells"@[5] == 'A'
    );
    assert(
        "conceptDescriptions"@.len() == 19
            && "conceptDescriptions"@[2] == 'n'
            && "conceptDescriptions"@[5] == 'p'
    );
    assert("keys"@.len() == 4 && "keys"@[2] == 'y');
    assert(
        "referredSemanticId"@.len() == 18
            && "referredSemanticId"@[2] == 'f'
            && "referredSemanticId"@[5] == 'r'
    );
    assert("Property"@.len() == 8 && "Property"@[2] == 'o' && "Property"@[5] == 'r');
    assert(
        "MultiLanguageProperty"@.len() == 21
            && "MultiLanguageProperty"@[2] == 'l'
            && "MultiLanguageProperty"@[5] == 'L'
    );
    assert("Range"@.len() == 5 && "Range"@[2] == 'n');
    assert("Blob"@.len() == 4 && "Blob"@[2] == 'o');
    assert("File"@.len() == 4 && "File"@[2] == 'l');
    assert(
        "ReferenceElement"@.len() == 16
            && "ReferenceElement"@[2] == 'f'
            && "ReferenceElement"@[5] == 'e'
    );
    assert(
        "RelationshipElement"@.len() == 19
            && "RelationshipElement"@[2] == 'l'
            && "RelationshipElement"@[5] == 'i'
    );
    assert(
        "AnnotatedRelationshipElement"@.len() == 28
            && "AnnotatedRelationshipElement"@[2] == 'n'
            && "AnnotatedRelationshipElement"@[5] == 'a'
    );
    assert("Capability"@.len() == 10 && "Capability"@[2] == 'p' && "Capability"@[5] == 'i');
    assert(
        "SubmodelElementList"@.len() == 19
            && "SubmodelElementList"@[2] == 'b'
            && "SubmodelElementList"@[5] == 'd'
    );
    assert(
        "SubmodelElementCollection"@.len() == 25
            && "SubmodelElementCollection"@[2] == 'b'
            && "SubmodelElementCollection"@[5] == 'd'
    );
    assert("Entity"@.len() == 6 && "Entity"@[2] == 't' && "Entity"@[5] == 'y');
    assert(
        "BasicEventElement"@.len() == 17
            && "BasicEventElement"@[2] == 's'
            && "BasicEventElement"@[5] == 'E'
    );
    assert("Operation"@.len() == 9 && "Operation"@[2] == 'e' && "Operation"@[5] == 't');
    assert(
        "AssetAdministrationShell"@.len() == 24
            && "AssetAdministrationShell"@[2] == 's'
            && "AssetAdministrationShell"@[5] == 'A'
    );
    assert(
        "ConceptDescription"@.len() == 18
            && "ConceptDescription"@[2] == 'n'
            && "ConceptDescription"@[5] == 'p'
    );
    assert("Submodel"@.len() == 8 && "Submodel"@[2] == 'b' && "Submodel"@[5] == 'd');
    assert("Qualifier"@.len() == 9 && "Qualifier"@[2] == 'a' && "Qualifier"@[5] == 'f');
    assert("Extension"@.len() == 9 && "Extension"@[2] == 't' && "Extension"@[5] == 's');
    assert(
        "SpecificAssetId"@.len() == 15
            && "SpecificAssetId"@[2] == 'e'
            && "SpecificAssetId"@[5] == 'f'
    );
    assert(
        "AdministrativeInformation"@.len() == 25
            && "AdministrativeInformation"@[2] == 'm'
            && "AdministrativeInformation"@[5] == 'i'
    );
}

} // verus!
